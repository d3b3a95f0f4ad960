use std::io::{Cursor, Write};

use ggez::paths::{append_path, push_path, sanitize_path};
use ggez::vfs::{resource_not_found, Error, OpenMode, OpenOptions, OverlayFS, PhysicalFS, PhysicalMetadata, VMetadata};
use ggez::zipfs::{SeekFrom, ZipFS, ZipFileWrapper};

fn vfs_message(e: &Error) -> String {
    match e {
        Error::VfsError(m) => m.clone(),
        other => panic!("expected a VfsError, got {:?}", other),
    }
}

fn make_zip_bytes() -> Vec<u8> {
    let zip_bytes = Cursor::new(vec![]);
    let mut zip_archive = zip::ZipWriter::new(zip_bytes);
    zip_archive
        .start_file("fake_file_name.txt", zip::write::FileOptions::default())
        .unwrap();
    let _bytes = zip_archive.write(b"Zip contents!").unwrap();
    zip_archive
        .add_directory("fake_dir", zip::write::FileOptions::default())
        .unwrap();
    zip_archive
        .start_file("fake_dir/file.txt", zip::write::FileOptions::default())
        .unwrap();
    let _bytes = zip_archive.write(b"Zip contents!").unwrap();
    zip_archive.finish().unwrap().into_inner()
}

fn make_zip_fs() -> ZipFS {
    ZipFS::from_read(make_zip_bytes()).unwrap()
}

fn read_all(w: &mut ZipFileWrapper) -> Vec<u8> {
    let mut out = Vec::new();
    let mut buf = [0u8; 4];
    loop {
        let n = w.read(&mut buf);
        if n == 0 {
            break;
        }
        out.extend_from_slice(&buf[..n]);
    }
    out
}

#[test]
fn it_works() {
    assert_eq!(2 + 2, 4);
}

#[test]
fn headless_test_path_filtering() {
    // Valid paths
    assert!(sanitize_path("/foo").is_some());
    assert!(sanitize_path("/foo/").is_some());
    assert!(sanitize_path("/foo/bar.txt").is_some());
    assert!(sanitize_path("/").is_some());

    // Invalid paths
    assert!(sanitize_path("../foo").is_none());
    assert!(sanitize_path("foo").is_none());
    assert!(sanitize_path("/foo/../../").is_none());
    assert!(sanitize_path("/foo/../bop").is_none());
    assert!(sanitize_path("/../bar").is_none());
    assert!(sanitize_path("").is_none());
}

#[test]
fn test_zip_files() {
    let mut zfs = make_zip_fs();

    assert!(zfs.path_exists("fake_file_name.txt"));

    let mut file = zfs
        .open_options("fake_file_name.txt", OpenOptions::new().read(true))
        .unwrap();
    let contents = String::from_utf8(read_all(&mut file)).unwrap();
    assert_eq!(contents, "Zip contents!");
}

#[test]
fn headless_test_zip_all() {
    let mut fs = make_zip_fs();
    let testdir = "/testdir";
    let testfile = "/file1.txt";
    let existing_file = "fake_file_name.txt";
    let existing_dir = "fake_dir";

    assert!(!fs.path_exists(testfile));
    assert!(!fs.path_exists(testdir));
    assert!(fs.path_exists(existing_file));

    // Create and delete test dir -- which always fails
    assert!(fs.mkdir(testdir).is_err());
    assert!(!fs.path_exists(testdir));
    assert!(fs.rm(testdir).is_err());

    // Reading an existing file succeeds.
    let _ = fs.open_options(existing_file, OpenOptions::new().read(true)).unwrap();
    // Writing to a new fails
    assert!(fs
        .open_options(testfile, OpenOptions::new().write(true).create(true).truncate(true))
        .is_err());
    // Appending a file fails
    assert!(fs
        .open_options(testfile, OpenOptions::new().write(true).create(true).append(true))
        .is_err());

    {
        let m = fs.metadata(existing_file).unwrap();
        assert!(m.is_file());
        assert!(!m.is_dir());
        assert_eq!(m.len(), 13);

        assert!(fs.metadata(testfile).is_err());
    }

    assert!(fs.rmrf(testdir).is_err());
    assert!(fs.rmrf(existing_dir).is_err());
}

#[test]
fn sanitize_path_gives_relative_components() {
    assert_eq!(sanitize_path("/foo").unwrap(), "foo");
    assert_eq!(sanitize_path("/foo/").unwrap(), "foo");
    assert_eq!(sanitize_path("/foo/bar.txt").unwrap(), "foo/bar.txt");
    assert_eq!(sanitize_path("/").unwrap(), "");
    assert_eq!(sanitize_path("//a//b/./c").unwrap(), "a/b/c");
    assert_eq!(sanitize_path("/a/.../b").unwrap(), "a/.../b");
    assert!(sanitize_path("/a/..").is_none());
}

#[test]
fn sanitized_path_sanitizes_to_itself() {
    for p in ["/foo", "/foo/bar.txt", "//x/./y/", "/"] {
        let r = sanitize_path(p).unwrap();
        assert!(!r.starts_with('/'));
        assert!(!r.split('/').any(|c| c == ".."));
        let again = sanitize_path(&format!("/{}", r)).unwrap();
        assert_eq!(again, r);
    }
}

#[test]
fn path_joining() {
    assert_eq!(append_path("/home/icefox/foo", "bar"), "/home/icefox/foo/bar");
    assert_eq!(append_path("/home/", "bar"), "/home/bar");
    assert_eq!(append_path("", "bar"), "bar");
    assert_eq!(push_path("/game", "resources"), "/game/resources");
    assert_eq!(push_path("/game", "/elsewhere"), "/elsewhere");
}

#[test]
fn open_options_set_one_flag_each() {
    assert_eq!(OpenOptions::new().flags(), (false, false, false, false, false));
    assert_eq!(OpenOptions::new().read(true).flags(), (true, false, false, false, false));
    assert_eq!(OpenOptions::new().write(true).flags(), (false, true, false, false, false));
    assert_eq!(OpenOptions::new().create(true).flags(), (false, false, true, false, false));
    assert_eq!(OpenOptions::new().append(true).flags(), (false, false, false, true, false));
    assert_eq!(OpenOptions::new().truncate(true).flags(), (false, false, false, false, true));
    assert_eq!(OpenOptions::default(), OpenOptions::new());
    assert!(!OpenOptions::new().read(true).alters());
    assert!(OpenOptions::new().append(true).alters());
    assert_eq!(OpenOptions::new().read(true).read(false), OpenOptions::new());
}

#[test]
fn physical_fs_to_absolute() {
    let fs = PhysicalFS::new("/home/icefox/foo", false);
    assert_eq!(fs.to_absolute("/bar").unwrap(), "/home/icefox/foo/bar");
    assert_eq!(fs.to_absolute("/a/./b/").unwrap(), "/home/icefox/foo/a/b");
    let e = fs.to_absolute("bar").unwrap_err();
    assert_eq!(
        vfs_message(&e),
        "Path \"bar\" is not valid: must be an absolute path with no references to parent directories"
    );
    assert!(fs.to_absolute("/../etc").is_err());
    assert_eq!(fs.root(), "/home/icefox/foo");
    assert_eq!(fs.to_path_buf(), Some(String::from("/home/icefox/foo")));
    assert_eq!(fs.describe(), "<PhysicalFS root: /home/icefox/foo>");
}

#[test]
fn physical_fs_read_only_refusals() {
    let ro = PhysicalFS::new("/r", true);
    let rw = PhysicalFS::new("/w", false);
    assert!(ro.is_readonly());
    assert!(!rw.is_readonly());
    assert!(ro.check_open("/x", OpenOptions::new().read(true)).is_ok());
    let e = ro.check_open("/x", OpenOptions::new().write(true)).unwrap_err();
    assert_eq!(
        vfs_message(&e),
        "Cannot alter file \"/x\" in root <PhysicalFS root: /r>, filesystem read-only"
    );
    assert!(rw.check_open("/x", OpenOptions::new().write(true)).is_ok());
    assert_eq!(
        vfs_message(&ro.check_mkdir().unwrap_err()),
        "Tried to make directory {} but FS is read-only"
    );
    assert_eq!(
        vfs_message(&ro.check_rm().unwrap_err()),
        "Tried to remove file {} but FS is read-only"
    );
    assert_eq!(
        vfs_message(&ro.check_rmrf().unwrap_err()),
        "Tried to remove file/dir {} but FS is read-only"
    );
    assert!(rw.check_mkdir().is_ok());
    assert!(rw.check_rm().is_ok());
    assert!(rw.check_rmrf().is_ok());
}

#[test]
fn overlay_first_answer_wins() {
    let mut ofs: OverlayFS<u32> = OverlayFS::new();
    ofs.push(1);
    ofs.push(2);
    ofs.push(3);
    assert_eq!(ofs.roots(), &[1, 2, 3]);
    let r: Result<u32, Vec<String>> = ofs.first_ok(|v| if *v >= 2 { Ok(*v * 10) } else { Err(format!("no {}", v)) });
    assert_eq!(r, Ok(20));
    let r: Result<u32, Vec<String>> = ofs.first_ok(|v| Err(format!("no {}", v)));
    assert_eq!(r, Err(vec![String::from("no 1"), String::from("no 2"), String::from("no 3")]));
    assert!(ofs.path_exists(|v| *v == 3));
    assert!(!ofs.path_exists(|v| *v == 4));
    assert_eq!(ofs.to_path_buf(), None);
}

#[test]
fn overlay_errors_name_the_path() {
    let mut ofs: OverlayFS<u32> = OverlayFS::new();
    ofs.push(1);
    let e = ofs.mkdir("/d", |_| Err::<(), ()>(())).unwrap_err();
    assert_eq!(vfs_message(&e), "Could not find anywhere writeable to make dir \"/d\"");
    let e = ofs.rm("/f", |_| Err::<(), ()>(())).unwrap_err();
    assert_eq!(vfs_message(&e), "Could not remove file \"/f\"");
    let e = ofs.rmrf("/f", |_| Err::<(), ()>(())).unwrap_err();
    assert_eq!(vfs_message(&e), "Could not remove file/dir \"/f\"");
    let e = ofs.metadata("/f", |_| Err::<u64, ()>(())).unwrap_err();
    assert_eq!(vfs_message(&e), "Could not get metadata for file/dir \"/f\"");
    assert_eq!(ofs.metadata("/f", |v| Ok::<u64, ()>(*v as u64)).unwrap(), 1);
}

#[test]
fn overlay_open_lists_every_attempt() {
    let mut ofs: OverlayFS<&str> = OverlayFS::new();
    ofs.push("/a");
    ofs.push("/b");
    let r: Result<u8, Error> = ofs.open_options("/x.txt", |root| {
        Err((Some(String::from(*root)), Error::VfsError(String::from("nope"))))
    });
    match r {
        Err(Error::ResourceNotFound(path, attempts)) => {
            assert_eq!(path, "/x.txt");
            assert_eq!(attempts.len(), 2);
            assert_eq!(attempts[0].0, "/a");
            assert_eq!(attempts[1].0, "/b");
        }
        other => panic!("unexpected {:?}", other),
    }
    let r: Result<u8, Error> = ofs.open_options("/x.txt", |root| {
        if *root == "/b" {
            Ok(7)
        } else {
            Err((None, Error::VfsError(String::from("nope"))))
        }
    });
    assert_eq!(r.unwrap(), 7);
    match resource_not_found("/y", vec![(None, Error::ZipError(String::from("z")))]) {
        Error::ResourceNotFound(path, attempts) => {
            assert_eq!(path, "/y");
            assert_eq!(attempts[0].0, "<invalid path>");
        }
        other => panic!("unexpected {:?}", other),
    }
}

#[test]
fn overlay_read_dir_joins_listings_in_order() {
    let mut ofs: OverlayFS<u32> = OverlayFS::new();
    ofs.push(1);
    ofs.push(2);
    ofs.push(3);
    let all: Vec<u32> = ofs.read_dir(|v| if *v == 2 { Err(()) } else { Ok(vec![*v, *v + 100]) });
    assert_eq!(all, vec![1, 101, 3, 103]);
}

#[test]
fn physical_metadata_reports_its_fields() {
    let m = PhysicalMetadata { len: 18, is_dir: true, is_file: false };
    assert!(m.is_dir());
    assert!(!m.is_file());
    assert_eq!(m.len(), 18);
}

#[test]
fn zip_fs_index_and_listing() {
    let zfs = make_zip_fs();
    assert_eq!(zfs.index(), &["fake_file_name.txt", "fake_dir/", "fake_dir/file.txt"]);
    assert_eq!(zfs.read_dir("fake_dir"), vec![String::from("fake_dir/"), String::from("fake_dir/file.txt")]);
    assert_eq!(zfs.read_dir("nothing"), Vec::<String>::new());
    assert_eq!(
        zfs.describe(),
        "ZipFS { source: None, archive: RefCell { value: <ZipArchiveAccess> }, \
         index: [\"fake_file_name.txt\", \"fake_dir/\", \"fake_dir/file.txt\"] }"
    );
    assert_eq!(zfs.to_path_buf(), None);
    let named = ZipFS::from_bytes(make_zip_bytes(), Some(String::from("/game/resources.zip"))).unwrap();
    assert!(named.describe().starts_with("ZipFS { source: Some(\"/game/resources.zip\"), archive: "));
    assert_eq!(named.to_path_buf(), Some(String::from("/game/resources.zip")));
}

#[test]
fn zip_fs_refusals_name_the_archive() {
    let mut zfs = make_zip_fs();
    let name = zfs.describe();
    assert_eq!(
        vfs_message(&zfs.mkdir("/d").unwrap_err()),
        format!("Cannot mkdir \"/d\" in zipfile {}, filesystem read-only", name)
    );
    assert_eq!(
        vfs_message(&zfs.rm("/d").unwrap_err()),
        format!("Cannot rm \"/d\" in zipfile {}, filesystem read-only", name)
    );
    assert_eq!(
        vfs_message(&zfs.rmrf("/d").unwrap_err()),
        format!("Cannot rmrf \"/d\" in zipfile {}, filesystem read-only", name)
    );
    assert_eq!(
        vfs_message(&zfs.open_options("fake_file_name.txt", OpenOptions::new().write(true)).unwrap_err()),
        format!("Cannot alter file \"fake_file_name.txt\" in zipfile {}, filesystem read-only", name)
    );
    assert_eq!(
        vfs_message(&zfs.metadata("missing.txt").unwrap_err()),
        "Metadata not found in zip file for missing.txt"
    );
    assert!(zfs.open_options("missing.txt", OpenOptions::new().read(true)).is_err());
    let nested = zfs.open_options("fake_dir/file.txt", OpenOptions::new().read(true));
    assert_eq!(read_all(&mut nested.unwrap()), b"Zip contents!".to_vec());
}

#[test]
fn messages_quote_paths_as_debug_does() {
    let fs = PhysicalFS::new("/r", true);
    let odd = "we\"ird\\pa\th\n";
    let e = fs.to_absolute(odd).unwrap_err();
    assert_eq!(
        vfs_message(&e),
        format!("Path {:?} is not valid: must be an absolute path with no references to parent directories", odd)
    );
    let e = fs.check_open(odd, OpenOptions::new().create(true)).unwrap_err();
    assert_eq!(
        vfs_message(&e),
        format!("Cannot alter file {:?} in root <PhysicalFS root: /r>, filesystem read-only", odd)
    );
    assert_eq!(ggez::debug_repr::debug_quote(odd), format!("{:?}", odd));
    assert_eq!(ggez::debug_repr::debug_quote("plain/path.txt"), "\"plain/path.txt\"");
}

#[test]
fn zip_fs_rejects_what_is_no_archive() {
    let e = ZipFS::from_read(b"definitely not a zip file".to_vec()).unwrap_err();
    assert_eq!(vfs_message(&e), "Zip error: description() is deprecated; use Display");
    assert!(ZipFS::from_read(Vec::new()).is_err());
}

#[test]
fn zip_file_wrapper_reads_and_seeks() {
    let mut w = ZipFileWrapper::new(b"Hello, zip".to_vec());
    assert_eq!(w.pos(), 0);
    let mut buf = [0u8; 5];
    assert_eq!(w.read(&mut buf), 5);
    assert_eq!(&buf, b"Hello");
    assert_eq!(w.pos(), 5);
    let mut big = [7u8; 8];
    assert_eq!(w.read(&mut big), 5);
    assert_eq!(&big, &[b',', b' ', b'z', b'i', b'p', 7, 7, 7]);
    assert_eq!(w.read(&mut big), 0);
    assert_eq!(w.seek(SeekFrom::Start(0)), Some(0));
    assert_eq!(read_all(&mut w), b"Hello, zip".to_vec());
    assert_eq!(w.seek(SeekFrom::End(-3)), Some(7));
    assert_eq!(read_all(&mut w), b"zip".to_vec());
    assert_eq!(w.seek(SeekFrom::Current(-4)), Some(6));
    assert_eq!(w.seek(SeekFrom::Current(-7)), None);
    assert_eq!(w.pos(), 6);
    assert_eq!(w.seek(SeekFrom::End(5)), Some(15));
    assert_eq!(w.read(&mut big), 0);
}

fn crc32(data: &[u8]) -> u32 {
    let mut crc = 0xFFFF_FFFFu32;
    for &b in data {
        crc ^= b as u32;
        for _ in 0..8 {
            crc = if crc & 1 != 0 { (crc >> 1) ^ 0xEDB8_8320 } else { crc >> 1 };
        }
    }
    !crc
}

/// A zip archive of stored (uncompressed) files, each with a name, its
/// contents and the extra field of its headers.
fn raw_zip(files: &[(&str, &[u8], &[u8])]) -> Vec<u8> {
    let mut out: Vec<u8> = Vec::new();
    let mut central: Vec<u8> = Vec::new();
    for (name, data, extra) in files {
        let offset = out.len() as u32;
        let crc = crc32(data);
        let size = data.len() as u32;
        out.extend_from_slice(&0x0403_4b50u32.to_le_bytes());
        out.extend_from_slice(&20u16.to_le_bytes());
        out.extend_from_slice(&0u16.to_le_bytes());
        out.extend_from_slice(&0u16.to_le_bytes());
        out.extend_from_slice(&0u16.to_le_bytes());
        out.extend_from_slice(&0x21u16.to_le_bytes());
        out.extend_from_slice(&crc.to_le_bytes());
        out.extend_from_slice(&size.to_le_bytes());
        out.extend_from_slice(&size.to_le_bytes());
        out.extend_from_slice(&(name.len() as u16).to_le_bytes());
        out.extend_from_slice(&(extra.len() as u16).to_le_bytes());
        out.extend_from_slice(name.as_bytes());
        out.extend_from_slice(extra);
        out.extend_from_slice(data);

        central.extend_from_slice(&0x0201_4b50u32.to_le_bytes());
        central.extend_from_slice(&20u16.to_le_bytes());
        central.extend_from_slice(&20u16.to_le_bytes());
        central.extend_from_slice(&0u16.to_le_bytes());
        central.extend_from_slice(&0u16.to_le_bytes());
        central.extend_from_slice(&0u16.to_le_bytes());
        central.extend_from_slice(&0x21u16.to_le_bytes());
        central.extend_from_slice(&crc.to_le_bytes());
        central.extend_from_slice(&size.to_le_bytes());
        central.extend_from_slice(&size.to_le_bytes());
        central.extend_from_slice(&(name.len() as u16).to_le_bytes());
        central.extend_from_slice(&(extra.len() as u16).to_le_bytes());
        central.extend_from_slice(&0u16.to_le_bytes());
        central.extend_from_slice(&0u16.to_le_bytes());
        central.extend_from_slice(&0u16.to_le_bytes());
        central.extend_from_slice(&0u32.to_le_bytes());
        central.extend_from_slice(&offset.to_le_bytes());
        central.extend_from_slice(name.as_bytes());
        central.extend_from_slice(extra);
    }
    let central_offset = out.len() as u32;
    let central_size = central.len() as u32;
    out.extend_from_slice(&central);
    out.extend_from_slice(&0x0605_4b50u32.to_le_bytes());
    out.extend_from_slice(&0u16.to_le_bytes());
    out.extend_from_slice(&0u16.to_le_bytes());
    out.extend_from_slice(&(files.len() as u16).to_le_bytes());
    out.extend_from_slice(&(files.len() as u16).to_le_bytes());
    out.extend_from_slice(&central_size.to_le_bytes());
    out.extend_from_slice(&central_offset.to_le_bytes());
    out.extend_from_slice(&0u16.to_le_bytes());
    out
}

#[test]
fn zip_fs_reads_a_hand_made_archive() {
    let mut fs = ZipFS::from_read(raw_zip(&[("hello.txt", b"hello, world", b"")])).unwrap();
    assert_eq!(fs.index(), &[String::from("hello.txt")]);
    assert!(fs.path_exists("hello.txt"));
    assert_eq!(fs.metadata("hello.txt").unwrap().len(), 12);
    let mut f = fs.open_options("hello.txt", OpenOptions::new().read(true)).unwrap();
    assert_eq!(read_all(&mut f), b"hello, world".to_vec());
}

#[test]
fn zip_fs_uses_the_last_file_of_a_name() {
    let mut fs = ZipFS::from_read(raw_zip(&[("a.txt", b"one", b""), ("b.txt", b"two", b""), ("a.txt", b"three", b"")])).unwrap();
    assert_eq!(fs.index().len(), 3);
    assert_eq!(fs.metadata("a.txt").unwrap().len(), 5);
    let mut f = fs.open_options("a.txt", OpenOptions::new().read(true)).unwrap();
    assert_eq!(read_all(&mut f), b"three".to_vec());
    let mut f = fs.open_options("b.txt", OpenOptions::new().read(true)).unwrap();
    assert_eq!(read_all(&mut f), b"two".to_vec());
}

#[test]
fn zip_fs_refuses_an_unencrypted_file_marked_aes() {
    // An AES extra field on a file whose encryption flag is clear.
    let aes: &[u8] = &[0x01, 0x99, 0x07, 0x00, 0x01, 0x00, 0x41, 0x45, 0x01, 0x00, 0x00];
    let mut fs = ZipFS::from_read(raw_zip(&[("plain.txt", b"plain", b""), ("secret.txt", b"", aes)])).unwrap();
    assert!(fs.path_exists("plain.txt"));
    assert!(!fs.path_exists("secret.txt"));
    assert_eq!(vfs_message(&fs.metadata("secret.txt").unwrap_err()), "Metadata not found in zip file for secret.txt");
    let e = fs.open_options("secret.txt", OpenOptions::new().read(true)).unwrap_err();
    assert!(vfs_message(&e).starts_with("Zip error: "));
}

#[test]
fn zip_fs_gives_the_read_error_of_damaged_contents() {
    // Deflate-compressed contents that are not valid deflate data.
    let mut bytes = raw_zip(&[("bad.txt", &[0xff, 0xff, 0xff, 0xff], b"")]);
    // Mark the file as deflated, in its local and central headers.
    bytes[8] = 8;
    let central = bytes.len() - 22 - (46 + "bad.txt".len());
    bytes[central + 10] = 8;
    let mut fs = ZipFS::from_read(bytes).unwrap();
    assert!(fs.path_exists("bad.txt"));
    let e = fs.open_options("bad.txt", OpenOptions::new().read(true)).unwrap_err();
    assert!(matches!(e, Error::IOError(_)), "{:?}", e);
}

#[test]
fn messages_escape_control_and_unusual_characters_as_debug_does() {
    let samples = [
        "bell\u{7}",
        "esc\u{1b}[0m",
        "del\u{7f}",
        "\u{1}\u{1f}",
        "it's",
        "caf\u{e9}",
        "e\u{301}",
        "\u{200b}zero width",
        "\u{85}next line",
        "\u{10ffff}",
        "emoji \u{1f600}",
    ];
    for s in samples {
        assert_eq!(ggez::debug_repr::debug_quote(s), format!("{:?}", s), "for {:?}", s);
    }
    assert_eq!(ggez::debug_repr::debug_quote("\u{1b}"), "\"\\u{1b}\"");
    assert_eq!(ggez::debug_repr::debug_quote("'"), "\"'\"");
    let fs = PhysicalFS::new("/r", true);
    let odd = "/a\u{7}b";
    let e = fs.check_open(odd, OpenOptions::new().create(true)).unwrap_err();
    assert_eq!(
        vfs_message(&e),
        format!("Cannot alter file {:?} in root <PhysicalFS root: /r>, filesystem read-only", odd)
    );
}

#[test]
fn open_modes_choose_their_options() {
    assert_eq!(OpenMode::Read.options().flags(), (true, false, false, false, false));
    assert_eq!(OpenMode::Create.options().flags(), (false, true, true, false, true));
    assert_eq!(OpenMode::Append.options().flags(), (false, true, true, true, false));
    assert!(!OpenMode::Read.options().alters());
    assert!(OpenMode::Create.options().alters());
}
