//! The files of the web client: which file answers a request path, and the
//! content type it is served with.
use vstd::prelude::*;

use crate::text::{split_on, str_chars};

verus! {

broadcast use vstd::string::group_string_axioms;

/// The MIME type, written out, that `actix_files::file_extension_to_mime`
/// gives a file name extension.
pub uninterp spec fn mime_for_extension(ext: Seq<char>) -> Seq<char>;

/// `actix_files::file_extension_to_mime`, written out: the MIME type of the
/// extension (without regard to case) from its table, and
/// `application/octet-stream` for an empty or unknown extension.
#[verifier::external_body]
fn file_extension_mime(ext: &str) -> (m: String)
    ensures
        m@ == mime_for_extension(ext@),
        ext@.len() == 0 ==> m@ == "application/octet-stream"@,
{
    actix_files::file_extension_to_mime(ext).to_string()
}

/// A segment of a path that names a file or directory: not empty (a doubled
/// or trailing `/`) and not `.`, both of which a path's components skip.
pub open spec fn is_name_segment(seg: Seq<char>) -> bool {
    seg.len() > 0 && seg != seq!['.']
}

/// The last segment that names something, if any.
pub open spec fn last_name(segs: Seq<Seq<char>>) -> Option<Seq<char>>
    decreases segs.len(),
{
    if segs.len() == 0 {
        None
    } else if is_name_segment(segs.last()) {
        Some(segs.last())
    } else {
        last_name(segs.drop_last())
    }
}

/// The extension of a file name, as `Path::extension` reads it: the text
/// after its last `.`; nothing for `..`, for a name without `.`, or for a
/// name whose only `.` comes first.
pub open spec fn name_extension(name: Seq<char>) -> Seq<char> {
    if name == seq!['.', '.'] {
        Seq::empty()
    } else {
        match name.index_of_last('.') {
            Some(i) => if i == 0 {
                Seq::empty()
            } else {
                name.skip(i + 1)
            },
            None => Seq::empty(),
        }
    }
}

/// The extension of a `/`-separated path, as `Path::extension` reads it:
/// that of its last named segment, and nothing when it names nothing.
pub open spec fn path_extension(p: Seq<char>) -> Seq<char> {
    match last_name(split_on(p, '/')) {
        Some(name) => name_extension(name),
        None => Seq::empty(),
    }
}

/// The file that answers a request: the requested path when the client's
/// files hold it, `index.html` otherwise.
pub fn served_file(requested: &str, found: bool) -> (p: String)
    ensures
        p@ == if found {
            requested@
        } else {
            "index.html"@
        },
{
    if found {
        requested.to_owned()
    } else {
        "index.html".to_owned()
    }
}

/// The extension of the name `chars[b..e]`.
fn name_extension_of(s: &str, chars: &Vec<char>, b: usize, e: usize) -> (r: String)
    requires
        chars@ == s@,
        b <= e <= chars.len(),
    ensures
        r@ == name_extension(s@.subrange(b as int, e as int)),
{
    let ghost name = s@.subrange(b as int, e as int);
    if e - b == 2 && chars[b] == '.' && chars[b + 1] == '.' {
        assert(name =~= seq!['.', '.']);
        return String::new();
    }
    assert(name != seq!['.', '.']) by {
        let dd = seq!['.', '.'];
        assert(dd.len() == 2 && dd[0] == '.' && dd[1] == '.');
        if name == dd {
            assert(name.len() == 2);
            assert(name[0] == s@[b as int]);
            assert(name[1] == s@[b + 1]);
        }
    }
    let mut j: usize = e;
    while j > b
        invariant
            b <= j <= e <= chars.len(),
            chars@ == s@,
            name == s@.subrange(b as int, e as int),
            forall|k: int| j <= k < e ==> chars@[k] != '.',
        decreases j,
    {
        if chars[j - 1] == '.' {
            let i = j - 1 - b;
            proof {
                name.index_of_last_ensures('.');
                assert(name[i as int] == '.');
                if name.index_of_last('.') != Some(i as int) {
                    let l = name.index_of_last('.')->0;
                    assert(name[l] == '.');
                    assert(chars@[b + l] == '.');
                }
            }
            if i == 0 {
                return String::new();
            }
            let ext = s.substring_char(j, e);
            assert(ext@ =~= name.skip(i + 1));
            return ext.to_owned();
        }
        j = j - 1;
    }
    proof {
        name.index_of_last_ensures('.');
        if name.contains('.') {
            let l = choose|l: int| 0 <= l < name.len() && name[l] == '.';
            assert(chars@[b + l] == '.');
        }
    }
    String::new()
}

/// The extension of the path `s`, as `Path::extension` reads it.
fn path_extension_of(s: &str) -> (r: String)
    ensures
        r@ == path_extension(s@),
{
    let chars = str_chars(s);
    let n = chars.len();
    let mut start: usize = 0;
    let mut i: usize = 0;
    let mut name: Option<(usize, usize)> = None;
    let ghost mut done: Seq<Seq<char>> = Seq::empty();
    assert(s@.take(0) =~= Seq::<char>::empty());
    assert(s@.subrange(0, 0) =~= Seq::<char>::empty());
    assert(split_on(s@.take(0), '/') =~= done.push(s@.subrange(0, 0)));
    while i < n
        invariant
            chars@ == s@,
            n == chars.len(),
            start <= i <= n,
            split_on(s@.take(i as int), '/') == done.push(s@.subrange(start as int, i as int)),
            match name {
                None => last_name(done) is None,
                Some((b, e)) => b <= e <= start && last_name(done) == Some(
                    s@.subrange(b as int, e as int),
                ),
            },
        decreases n - i,
    {
        assert(s@.take(i + 1).drop_last() =~= s@.take(i as int));
        assert(s@.take(i + 1).last() == chars@[i as int]);
        if chars[i] == '/' {
            let ghost piece = s@.subrange(start as int, i as int);
            let named = i > start && !(i - start == 1 && chars[start] == '.');
            proof {
                if i - start == 1 && chars@[start as int] == '.' {
                    assert(piece =~= seq!['.']);
                }
                let dot = seq!['.'];
                assert(dot.len() == 1 && dot[0] == '.');
                if piece == dot {
                    assert(piece.len() == 1);
                    assert(piece[0] == s@[start as int]);
                }
                assert(named == is_name_segment(piece));
                let p = done.push(piece);
                assert(p.drop_last() =~= done);
                assert(p.last() == piece);
                done = p;
                assert(s@.subrange(i + 1, i + 1) =~= Seq::<char>::empty());
                assert(split_on(s@.take(i + 1), '/') =~= done.push(s@.subrange(i + 1, i + 1)));
            }
            if named {
                name = Some((start, i));
            }
            start = i + 1;
        } else {
            proof {
                crate::text::lemma_split_on_nonempty(s@.take(i as int), '/');
                assert(s@.subrange(start as int, i + 1) =~= s@.subrange(start as int, i as int).push(
                    chars@[i as int],
                ));
                assert(split_on(s@.take(i + 1), '/') =~= done.push(s@.subrange(start as int, i + 1)));
            }
        }
        i = i + 1;
    }
    assert(s@.take(n as int) =~= s@);
    let ghost piece = s@.subrange(start as int, n as int);
    let named = n > start && !(n - start == 1 && chars[start] == '.');
    proof {
        if n - start == 1 && chars@[start as int] == '.' {
            assert(piece =~= seq!['.']);
        }
        let dot = seq!['.'];
        assert(dot.len() == 1 && dot[0] == '.');
        if piece == dot {
            assert(piece.len() == 1);
            assert(piece[0] == s@[start as int]);
        }
        assert(named == is_name_segment(piece));
        let p = done.push(piece);
        assert(p.drop_last() =~= done);
        assert(p.last() == piece);
        assert(split_on(s@, '/') == p);
    }
    if named {
        name_extension_of(s, &chars, start, n)
    } else {
        match name {
            Some((b, e)) => name_extension_of(s, &chars, b, e),
            None => String::new(),
        }
    }
}

/// The content type a served file is answered with: the MIME type of its
/// path's extension.
pub fn content_type(served: &str) -> (m: String)
    ensures
        m@ == mime_for_extension(path_extension(served@)),
{
    let ext = path_extension_of(served);
    file_extension_mime(ext.as_str())
}

} // verus!
