use std::cell::Cell;

use ggez::error::GameError;
use ggez::graphics::batch::{MeshBatch, SpriteBatch, SpriteIdx};
use ggez::graphics::canvas::DrawQueue;
use ggez::graphics::context::LastBindGroup;
use ggez::graphics::color::{pack_rgba, rgba_bytes};
use ggez::graphics::growing::{align, GrowingBufferArena};
use ggez::graphics::mesh::Mesh;
use ggez::graphics::mesh3d::{split_once, DataUri};
use ggez::graphics::sampler::{ClampMode, FilterMode, Sampler, SamplerCache};
use ggez::graphics::shader::{default_shader, default_text_shader, Shader, ShaderBuilder, ShaderSource};
use ggez::graphics::text::{contents, TextAlign, TextLayout};
use ggez::graphics::types::DrawMode;

fn out_of_bounds(r: Result<(), GameError>) -> bool {
    matches!(r, Err(GameError::RenderError(m)) if m == "Provided index is out of bounds.")
}

#[test]
fn align_rounds_up_to_the_alignment() {
    assert_eq!(align(4, 0), 0);
    assert_eq!(align(4, 1), 4);
    assert_eq!(align(4, 4), 4);
    assert_eq!(align(4, 5), 8);
    assert_eq!(align(256, 300), 512);
    assert_eq!(align(1, 77), 77);
}

#[test]
fn arena_hands_out_from_the_first_buffer_with_room() {
    let mut arena = GrowingBufferArena::new("b0", 4, 16);
    assert_eq!(arena.buffer_count(), 1);
    let a = arena.try_allocate(5).unwrap();
    assert_eq!((a.buffer, a.offset), ("b0", 0));
    let b = arena.try_allocate(4).unwrap();
    assert_eq!((b.buffer, b.offset), ("b0", 8));
    assert!(arena.try_allocate(8).is_none());
    let c = arena.allocate(8, || "b1");
    assert_eq!((c.buffer, c.offset), ("b1", 0));
    assert_eq!(arena.buffer_count(), 2);
    let d = arena.allocate(4, || "never");
    assert_eq!((d.buffer, d.offset), ("b0", 12));
    let e = arena.allocate(3, || "never");
    assert_eq!((e.buffer, e.offset), ("b1", 8));
    arena.free();
    let f = arena.allocate(16, || "never");
    assert_eq!((f.buffer, f.offset), ("b0", 0));
    arena.grow("b2");
    assert_eq!(arena.buffer_count(), 3);
    let g = arena.allocate(16, || "never");
    assert_eq!((g.buffer, g.offset), ("b1", 0));
}

#[test]
fn sampler_presets_and_keys() {
    let l = Sampler::linear_clamp();
    assert_eq!(l.mag, FilterMode::Linear);
    assert_eq!(l.min, FilterMode::Linear);
    assert_eq!(l.clamp_u, ClampMode::Clamp);
    assert_eq!(Sampler::default(), l);
    assert_eq!(Sampler::from(FilterMode::Nearest), Sampler::nearest_clamp());
    assert_eq!(Sampler::from(FilterMode::Linear), l);
    assert_eq!(Sampler::nearest_clamp().key(), 0);
    assert_eq!(l.key(), 81);
    let r = Sampler { clamp_u: ClampMode::Repeat, clamp_v: ClampMode::MirrorRepeat, ..l };
    assert_eq!(r.key(), 1 + 3 * 2 + 81);
    let mut keys = Vec::new();
    for u in [ClampMode::Clamp, ClampMode::Repeat, ClampMode::MirrorRepeat] {
        for v in [ClampMode::Clamp, ClampMode::Repeat, ClampMode::MirrorRepeat] {
            for w in [ClampMode::Clamp, ClampMode::Repeat, ClampMode::MirrorRepeat] {
                for mag in [FilterMode::Nearest, FilterMode::Linear] {
                    for min in [FilterMode::Nearest, FilterMode::Linear] {
                        keys.push(Sampler { clamp_u: u, clamp_v: v, clamp_w: w, mag, min }.key());
                    }
                }
            }
        }
    }
    keys.sort();
    keys.dedup();
    assert_eq!(keys.len(), 108);
}

#[test]
fn sampler_cache_makes_each_sampler_once() {
    let made = Cell::new(0u32);
    let mut cache: SamplerCache<String> = SamplerCache::new();
    let make = |s: Sampler| {
        made.set(made.get() + 1);
        format!("gpu sampler {}", s.key())
    };
    assert_eq!(cache.get(Sampler::linear_clamp(), &make), "gpu sampler 81");
    assert_eq!(cache.get(Sampler::linear_clamp(), &make), "gpu sampler 81");
    assert_eq!(made.get(), 1);
    assert_eq!(cache.get(Sampler::nearest_clamp(), &make), "gpu sampler 0");
    assert_eq!(made.get(), 2);
    assert_eq!(cache.get(Sampler::linear_clamp(), &make), "gpu sampler 81");
    assert_eq!(made.get(), 2);
}

#[test]
fn shader_builder_sets_each_stage() {
    let b = ShaderBuilder::new_wgsl();
    assert!(matches!(b.fs, ShaderSource::Unset));
    assert!(matches!(b.vs, ShaderSource::Unset));
    assert!(b.shares_module());
    let b = ShaderBuilder::new_with_code("code");
    assert!(matches!(b.fs, ShaderSource::Code("code")));
    assert!(matches!(b.vs, ShaderSource::Code("code")));
    assert!(b.shares_module());
    let b = b.fragment_path("/frag.wgsl");
    assert!(matches!(b.fs, ShaderSource::Path("/frag.wgsl")));
    assert!(matches!(b.vs, ShaderSource::Code("code")));
    assert!(!b.shares_module());
    let b = b.vertex_code("vert");
    assert!(matches!(b.fs, ShaderSource::Path("/frag.wgsl")));
    assert!(matches!(b.vs, ShaderSource::Code("vert")));
    let b = b.vertex_path("/frag.wgsl");
    assert!(matches!(b.vs, ShaderSource::Path("/frag.wgsl")));
    assert!(b.shares_module());
    let b = b.fragment_code("frag");
    assert!(matches!(b.fs, ShaderSource::Code("frag")));
    let b = ShaderBuilder::new_wgsl().new_with_path("/s.wgsl");
    assert!(matches!(b.fs, ShaderSource::Path("/s.wgsl")));
    assert!(matches!(b.vs, ShaderSource::Path("/s.wgsl")));
    assert!(ShaderSource::Path("x").same_as(&ShaderSource::Path("x")));
    assert!(!ShaderSource::Path("x").same_as(&ShaderSource::Code("x")));
}

#[test]
fn shaders_from_modules() {
    let shared = Shader::from_modules(true, Some(7u32), Some(9u32));
    assert_eq!(shared, Shader { vs_module: Some(7), fs_module: Some(7) });
    let separate = Shader::from_modules(false, Some(7u32), Some(9u32));
    assert_eq!(separate, Shader { vs_module: Some(7), fs_module: Some(9) });
    let d: Shader<u32> = default_shader();
    assert_eq!(d, Shader { vs_module: None, fs_module: None });
    let t: Shader<u32> = default_text_shader();
    assert_eq!(t, Shader { vs_module: None, fs_module: None });
}

#[test]
fn text_layouts_and_contents() {
    let s = TextLayout::tl_single_line();
    assert_eq!(s, TextLayout::SingleLine { h_align: TextAlign::Begin, v_align: TextAlign::Begin });
    let w = TextLayout::tl_wrap();
    assert_eq!(w, TextLayout::Wrap { h_align: TextAlign::Begin, v_align: TextAlign::Begin });
    let c = TextLayout::Wrap { h_align: TextAlign::Middle, v_align: TextAlign::End };
    assert_eq!(c.h_align(), TextAlign::Middle);
    assert_eq!(c.v_align(), TextAlign::End);
    assert_eq!(contents(&[String::from("Hello, "), String::from("world"), String::new(), String::from("!")]), "Hello, world!");
    assert_eq!(contents(&[]), "");
}

#[test]
fn mesh_batch_instances() {
    let mut batch: MeshBatch<&str, u32> = MeshBatch::new("quad");
    assert_eq!(batch.add(10), 0);
    assert_eq!(batch.add(20), 1);
    assert_eq!(batch.add(30), 2);
    assert!(batch.set(1, 21).is_ok());
    assert_eq!(batch.instances(), &[10, 21, 30]);
    // The handle that add returned last can be changed too.
    assert!(batch.set(2, 31).is_ok());
    assert!(out_of_bounds(batch.set(3, 32)));
    assert!(out_of_bounds(batch.set(9, 32)));
    assert_eq!(batch.instances(), &[10, 21, 31]);
    assert_eq!(*batch.mesh(), "quad");
    assert_eq!(batch.set_inner("circle"), "quad");
    batch.clear();
    assert!(batch.instances().is_empty());
    assert_eq!(batch.into_inner(), "circle");
}

#[test]
fn sprite_batch_sprites() {
    let mut batch: SpriteBatch<&str, u32, &str> = SpriteBatch::new("atlas");
    assert_eq!(batch.add(1), SpriteIdx(0));
    assert_eq!(batch.add(2), SpriteIdx(1));
    assert!(batch.set(SpriteIdx(1), 5).is_ok());
    assert!(out_of_bounds(batch.set(SpriteIdx(2), 5)));
    assert_eq!(batch.sprites(), &[1, 5]);
    assert_eq!(*batch.blend_mode(), None);
    batch.set_blend_mode(Some("additive"));
    assert_eq!(*batch.blend_mode(), Some("additive"));
    assert_eq!(batch.set_image("other"), "atlas");
    assert_eq!(*batch.image(), "other");
    batch.clear();
    assert!(batch.sprites().is_empty());
    assert_eq!(batch.into_inner(), "other");
}

#[test]
fn mesh_reuses_buffers_while_they_fit() {
    let mut mesh = Mesh::new("v0", "i0", 4, 6, 1);
    assert_eq!((mesh.vertex_count(), mesh.index_count(), mesh.id()), (4, 6, 1));
    assert!(mesh.set_vertices(3, || ("never", 99)));
    assert_eq!((*mesh.verts(), mesh.vertex_count(), mesh.id()), ("v0", 3, 1));
    assert!(mesh.set_vertices(4, || ("never", 99)));
    assert!(!mesh.set_vertices(8, || ("v1", 2)));
    assert_eq!((*mesh.verts(), mesh.vertex_count(), mesh.id()), ("v1", 8, 2));
    assert!(mesh.set_vertices(5, || ("never", 99)));
    assert_eq!((*mesh.verts(), mesh.vertex_count(), mesh.id()), ("v1", 5, 2));
    assert!(!mesh.set_indices(7, || ("i1", 3)));
    assert_eq!((*mesh.inds(), mesh.index_count(), mesh.id()), ("i1", 7, 3));
    assert!(mesh.set_indices(0, || ("never", 99)));
    assert_eq!((*mesh.inds(), mesh.index_count()), ("i1", 0));
    mesh.update_id(42);
    assert_eq!(mesh.id(), 42);
}

#[test]
fn split_once_splits_at_the_first_delimiter() {
    assert_eq!(split_once("a,b,c", ','), Some(("a", "b,c")));
    assert_eq!(split_once(",", ','), Some(("", "")));
    assert_eq!(split_once("abc", ','), None);
    assert_eq!(split_once("", ','), None);
    assert_eq!(split_once("héllo wörld", ' '), Some(("héllo", "wörld")));
}

#[test]
fn data_uris_are_parsed() {
    assert_eq!(
        DataUri::parse("data:application/octet-stream;base64,AAAA"),
        Some(DataUri { mime_type: "application/octet-stream", base64: true, data: "AAAA" })
    );
    assert_eq!(
        DataUri::parse("data:text/plain,hi,there"),
        Some(DataUri { mime_type: "text/plain", base64: false, data: "hi,there" })
    );
    assert_eq!(DataUri::parse("data:,"), Some(DataUri { mime_type: "", base64: false, data: "" }));
    assert_eq!(DataUri::parse("data:text/plain"), None);
    assert_eq!(DataUri::parse("file:text/plain,hi"), None);
    assert_eq!(DataUri::parse("dat"), None);
}

#[test]
fn draw_mode_fill() {
    assert_eq!(DrawMode::fill(), DrawMode::Fill);
    assert_ne!(DrawMode::fill(), DrawMode::Line);
}

#[test]
fn colors_pack_into_integers() {
    assert_eq!(rgba_bytes(0xFFFF_FFFF), (255, 255, 255, 255));
    assert_eq!(rgba_bytes(0x8080_80FF), (128, 128, 128, 255));
    assert_eq!(rgba_bytes(0xCC88_99FF), (0xCC, 0x88, 0x99, 0xFF));
    assert_eq!(rgba_bytes(0x00CC_8899), (0x00, 0xCC, 0x88, 0x99));
    assert_eq!(pack_rgba(0xCC, 0x88, 0x99, 0xFF), 0xCC88_99FF);
    assert_eq!(pack_rgba(0, 0, 0, 255), 0x0000_00FF);
    for c in [0u32, 1, 0x1234_5678, 0xDEAD_BEEF, u32::MAX] {
        let (r, g, b, a) = rgba_bytes(c);
        assert_eq!(pack_rgba(r, g, b, a), c);
    }
}

#[test]
fn draws_replay_by_z_then_queue_order() {
    let mut q: DrawQueue<&str> = DrawQueue::new();
    q.push_draw(0, "background");
    q.push_draw(10, "player");
    q.push_draw(-5, "sky");
    q.push_draw(0, "tiles");
    q.push_draw(10, "sword");
    q.push_draw(3, "shadow");
    let order: Vec<&str> = q.layers().iter().flat_map(|(_, cmds)| cmds.iter().copied()).collect();
    assert_eq!(order, vec!["sky", "background", "tiles", "shadow", "player", "sword"]);
    let zs: Vec<i32> = q.layers().iter().map(|(z, _)| *z).collect();
    assert_eq!(zs, vec![-5, 0, 3, 10]);
    q.clear();
    assert!(q.layers().is_empty());
}

#[test]
fn bind_group_is_reused_while_image_and_sampler_stay() {
    let made = Cell::new(0u32);
    let make = |name: &'static str| {
        made.set(made.get() + 1);
        name
    };
    let mut last: LastBindGroup<&str> = LastBindGroup::new();
    assert_eq!(last.bind_group(1, 2, || make("g12")), "g12");
    assert_eq!(last.bind_group(1, 2, || make("again")), "g12");
    assert_eq!(made.get(), 1);
    assert_eq!(last.bind_group(1, 3, || make("g13")), "g13");
    assert_eq!(last.bind_group(1, 2, || make("g12 anew")), "g12 anew");
    assert_eq!(made.get(), 3);
}
