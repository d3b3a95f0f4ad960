//! Reading the embedded resources of 3D model files: `data:` URIs.

use vstd::prelude::*;

verus! {

/// `input` split around its first `delimiter`: what comes before it and what
/// comes after it, or `None` where it has none.
pub fn split_once<'a>(input: &'a str, delimiter: char) -> (r: Option<(&'a str, &'a str)>)
    ensures
        match r {
            Some((before, after)) => {
                &&& input@ == before@ + seq![delimiter] + after@
                &&& !before@.contains(delimiter)
            },
            None => !input@.contains(delimiter),
        },
{
    let n = input.unicode_len();
    let mut i: usize = 0;
    while i < n
        invariant
            n == input@.len(),
            i <= n,
            forall|j: int| 0 <= j < i ==> input@[j] != delimiter,
        decreases n - i,
    {
        if input.get_char(i) == delimiter {
            let before = input.substring_char(0, i);
            let after = input.substring_char(i + 1, n);
            assert(input@ =~= before@ + seq![delimiter] + after@);
            return Some((before, after));
        }
        i = i + 1;
    }
    None
}

/// Whether `s` ends with `suffix`.
pub open spec fn has_suffix(s: Seq<char>, suffix: Seq<char>) -> bool {
    suffix.len() <= s.len() && s.skip(s.len() - suffix.len()) == suffix
}

/// `s` without the prefix `prefix`, where it starts with it.
fn strip_prefix<'a>(s: &'a str, prefix: &str) -> (r: Option<&'a str>)
    ensures
        match r {
            Some(rest) => s@ == prefix@ + rest@,
            None => !prefix@.is_prefix_of(s@),
        },
{
    let n = s.unicode_len();
    let m = prefix.unicode_len();
    if m > n {
        return None;
    }
    let mut i: usize = 0;
    while i < m
        invariant
            m <= n,
            n == s@.len(),
            m == prefix@.len(),
            i <= m,
            forall|j: int| 0 <= j < i ==> prefix@[j] == s@[j],
        decreases m - i,
    {
        if s.get_char(i) != prefix.get_char(i) {
            return None;
        }
        i = i + 1;
    }
    let rest = s.substring_char(m, n);
    assert(s@ =~= prefix@ + rest@);
    Some(rest)
}

/// `s` without the suffix `suffix`, where it ends with it.
fn strip_suffix<'a>(s: &'a str, suffix: &str) -> (r: Option<&'a str>)
    ensures
        match r {
            Some(rest) => s@ == rest@ + suffix@,
            None => !has_suffix(s@, suffix@),
        },
{
    let n = s.unicode_len();
    let m = suffix.unicode_len();
    if m > n {
        return None;
    }
    let start = n - m;
    let mut i: usize = 0;
    while i < m
        invariant
            m <= n,
            start == n - m,
            n == s@.len(),
            m == suffix@.len(),
            i <= m,
            forall|j: int| 0 <= j < i ==> suffix@[j] == s@[start + j],
        decreases m - i,
    {
        if s.get_char(start + i) != suffix.get_char(i) {
            assert(s@.skip(start as int)[i as int] != suffix@[i as int]);
            return None;
        }
        i = i + 1;
    }
    let rest = s.substring_char(0, start);
    assert(s@.skip(start as int) =~= suffix@);
    assert(s@ =~= rest@ + suffix@);
    Some(rest)
}

/// The parts of a `data:` URI: `data:<mime type>[;base64],<data>`.
#[derive(Debug, PartialEq, Eq)]
pub struct DataUri<'a> {
    /// The media type.
    pub mime_type: &'a str,
    /// Whether the data is base64-encoded.
    pub base64: bool,
    /// The data.
    pub data: &'a str,
}

/// `uri` is `data:` followed by `head`, a comma and `data`, and `head` has no
/// comma.
pub open spec fn data_uri_parts(uri: Seq<char>, head: Seq<char>, data: Seq<char>) -> bool {
    &&& uri == "data:"@ + head + seq![','] + data
    &&& !head.contains(',')
}

impl<'a> DataUri<'a> {
    /// These are the parts of `uri`, whose part between `data:` and the
    /// comma is `head`: the media type, then `;base64` where the data is
    /// base64-encoded.
    pub open spec fn parsed_from(&self, uri: Seq<char>, head: Seq<char>) -> bool {
        &&& data_uri_parts(uri, head, self.data@)
        &&& self.base64 == has_suffix(head, ";base64"@)
        &&& head == self.mime_type@ + (if self.base64 { ";base64"@ } else { Seq::<char>::empty() })
    }

    /// Splits a `data:` URI into its parts; `None` where `uri` does not start
    /// with `data:` or has no comma after it.
    pub fn parse(uri: &'a str) -> (r: Option<DataUri<'a>>)
        ensures
            match r {
                Some(d) => exists|head: Seq<char>| #[trigger] d.parsed_from(uri@, head),
                None => forall|head: Seq<char>, data: Seq<char>| !#[trigger] data_uri_parts(uri@, head, data),
            },
    {
        proof {
            reveal_strlit("data:");
            reveal_strlit(";base64");
        }
        let rest = match strip_prefix(uri, "data:") {
            Some(rest) => rest,
            None => {
                assert forall|head: Seq<char>, data: Seq<char>| !#[trigger] data_uri_parts(uri@, head, data) by {
                    if data_uri_parts(uri@, head, data) {
                        assert(uri@.take(5) =~= "data:"@);
                    }
                }
                return None;
            },
        };
        match split_once(rest, ',') {
            Some((head, data)) => {
                assert(uri@ =~= "data:"@ + head@ + seq![','] + data@);
                assert(data_uri_parts(uri@, head@, data@));
                let d = match strip_suffix(head, ";base64") {
                    Some(mime_type) => {
                        assert(has_suffix(head@, ";base64"@)) by {
                            assert(head@.skip(head@.len() - 7) =~= ";base64"@);
                        }
                        DataUri { mime_type, base64: true, data }
                    },
                    None => {
                        assert(head@ =~= head@ + Seq::<char>::empty());
                        DataUri { mime_type: head, base64: false, data }
                    },
                };
                let r = Some(d);
                assert(r.unwrap().parsed_from(uri@, head@));
                r
            },
            None => {
                assert forall|head: Seq<char>, data: Seq<char>| !#[trigger] data_uri_parts(uri@, head, data) by {
                    if data_uri_parts(uri@, head, data) {
                        assert(rest@ =~= uri@.skip(5));
                        assert(head + seq![','] + data =~= uri@.skip(5));
                        assert(rest@[head.len() as int] == ',');
                    }
                }
                None
            },
        }
    }
}

} // verus!
