use vstd::prelude::*;

use crate::post::Post;
use crate::text::{
    append_chars, chars_to_string, contains_chars, contains_seq, escape_chars, escape_seq,
    format_i64, int_to_dec, str_to_chars,
};

verus! {

/// What parsing a source string as an absolute URL yields: nothing when the
/// string is no URL, otherwise its host, if it has one.
pub uninterp spec fn source_host_of(s: Seq<char>) -> Option<Option<Seq<char>>>;

/// The parse outcome as characters, for holding the parser's answer against
/// `source_host_of`.
pub open spec fn host_result_view(r: Option<Option<String>>) -> Option<Option<Seq<char>>> {
    match r {
        None => None,
        Some(None) => Some(None),
        Some(Some(h)) => Some(Some(h@)),
    }
}

/// Relies on url::Url::parse and url::Url::host_str: whether a string parses
/// as an absolute URL, and what host the parsed URL carries, are functions
/// of the string alone.
#[verifier::external_body]
fn parse_source_host(s: &str) -> (r: Option<Option<String>>)
    ensures
        host_result_view(r) == source_host_of(s@),
{
    match url::Url::parse(s) {
        Ok(u) => Some(u.host_str().map(|h| h.to_owned())),
        Err(_) => None,
    }
}

/// The string with every trailing slash removed.
pub open spec fn drop_trailing_slashes(s: Seq<char>) -> Seq<char>
    decreases s.len(),
{
    if s.len() > 0 && s.last() == '/' {
        drop_trailing_slashes(s.drop_last())
    } else {
        s
    }
}

/// The suffix after the last slash; the whole string when it has none.
pub open spec fn after_last_slash(s: Seq<char>) -> Seq<char>
    decreases s.len(),
{
    if s.len() == 0 {
        s
    } else if s.last() == '/' {
        Seq::empty()
    } else {
        after_last_slash(s.drop_last()).push(s.last())
    }
}

/// The prefix before the first underscore; the whole string when it has none.
pub open spec fn before_first_underscore(s: Seq<char>) -> Seq<char>
    decreases s.len(),
{
    if s.len() == 0 {
        s
    } else if s[0] == '_' {
        Seq::empty()
    } else {
        seq![s[0]] + before_first_underscore(s.drop_first())
    }
}

/// The picture id a pixiv-hosted source names: the file name of the URL path
/// (its last segment, trailing slashes ignored) up to the first underscore.
/// A source that is nothing but slashes names no picture.
pub open spec fn pixiv_id_of(s: Seq<char>) -> Option<Seq<char>> {
    let t = drop_trailing_slashes(s);
    if t.len() == 0 {
        None
    } else {
        Some(before_first_underscore(after_last_slash(t)))
    }
}

/// Extract the pixiv picture id from a source string.
#[verifier::loop_isolation(false)]
pub fn pixiv_id_chars(src: &Vec<char>) -> (r: Option<Vec<char>>)
    ensures
        match r {
            Some(v) => pixiv_id_of(src@) == Some(v@),
            None => pixiv_id_of(src@) is None,
        },
{
    let n = src.len();
    let mut e: usize = n;
    proof {
        assert(src@.take(n as int) =~= src@);
    }
    while e > 0 && src[e - 1] == '/'
        invariant
            0 <= e <= n,
            n == src@.len(),
            drop_trailing_slashes(src@) == drop_trailing_slashes(src@.take(e as int)),
        decreases e,
    {
        proof {
            assert(src@.take(e as int).last() == src@[e - 1]);
            assert(src@.take(e as int).drop_last() =~= src@.take(e - 1));
        }
        e -= 1;
    }
    proof {
        if e > 0 {
            assert(src@.take(e as int).last() == src@[e - 1]);
        }
        assert(drop_trailing_slashes(src@.take(e as int)) == src@.take(e as int));
    }
    if e == 0 {
        proof {
            assert(src@.take(0) =~= Seq::<char>::empty());
        }
        return None;
    }
    let ghost t = src@.take(e as int);
    let mut b: usize = e;
    proof {
        assert(t.skip(e as int) =~= Seq::<char>::empty());
        assert(after_last_slash(t) =~= after_last_slash(t.take(e as int)) + t.skip(e as int))
            by {
            assert(t.take(e as int) =~= t);
        }
    }
    while b > 0 && src[b - 1] != '/'
        invariant
            0 <= b <= e <= n,
            n == src@.len(),
            t == src@.take(e as int),
            t.len() == e,
            after_last_slash(t) == after_last_slash(t.take(b as int)) + t.skip(b as int),
        decreases b,
    {
        proof {
            let tb = t.take(b as int);
            assert(tb.last() == src@[b - 1]) by {
                assert(tb.last() == t[b - 1]);
                assert(t[b - 1] == src@[b - 1]);
            }
            assert(tb.drop_last() =~= t.take(b - 1));
            assert(after_last_slash(tb) == after_last_slash(t.take(b - 1)).push(tb.last()));
            assert(after_last_slash(t.take(b - 1)).push(tb.last()) + t.skip(b as int)
                =~= after_last_slash(t.take(b - 1)) + t.skip(b - 1)) by {
                assert(t.skip(b - 1)[0] == t[b - 1]);
            }
        }
        b -= 1;
    }
    proof {
        if b == 0 {
            assert(t.take(0) =~= Seq::<char>::empty());
            assert(after_last_slash(Seq::<char>::empty()) == Seq::<char>::empty());
            assert(after_last_slash(t) =~= t.skip(0));
        } else {
            assert(t.take(b as int).last() == src@[b - 1]) by {
                assert(t.take(b as int).last() == t[b - 1]);
            }
            assert(after_last_slash(t.take(b as int)) == Seq::<char>::empty());
            assert(after_last_slash(t) =~= t.skip(b as int));
        }
    }
    let mut name: Vec<char> = Vec::new();
    let mut i: usize = b;
    while i < e
        invariant
            0 <= b <= i <= e <= n,
            n == src@.len(),
            t == src@.take(e as int),
            t.len() == e,
            name@ == t.subrange(b as int, i as int),
        decreases e - i,
    {
        name.push(src[i]);
        proof {
            assert(t.subrange(b as int, i + 1) =~= t.subrange(b as int, i as int).push(
                t[i as int],
            ));
            assert(t[i as int] == src@[i as int]);
        }
        i += 1;
    }
    proof {
        assert(name@ =~= t.skip(b as int)) by {
            assert(t.subrange(b as int, e as int) =~= t.skip(b as int));
        }
    }
    let m = name.len();
    let mut j: usize = 0;
    let mut id: Vec<char> = Vec::new();
    proof {
        assert(name@.skip(0) =~= name@);
    }
    while j < m
        invariant
            0 <= j <= m,
            m == name@.len(),
            before_first_underscore(name@) == id@ + before_first_underscore(
                name@.skip(j as int),
            ),
        decreases m - j,
    {
        if name[j] == '_' {
            proof {
                assert(name@.skip(j as int)[0] == name@[j as int]);
                assert(before_first_underscore(name@.skip(j as int)) =~= Seq::<char>::empty());
                assert(before_first_underscore(name@) =~= id@);
            }
            return Some(id);
        }
        id.push(name[j]);
        proof {
            let sj = name@.skip(j as int);
            assert(sj[0] == name@[j as int]);
            assert(sj.drop_first() =~= name@.skip(j + 1));
            assert(before_first_underscore(sj) == seq![sj[0]] + before_first_underscore(
                name@.skip(j + 1),
            ));
            assert(id@ + before_first_underscore(name@.skip(j + 1)) =~= id@.drop_last() + (
            seq![sj[0]] + before_first_underscore(name@.skip(j + 1))));
        }
        j += 1;
    }
    proof {
        assert(name@.skip(m as int) =~= Seq::<char>::empty());
        assert(before_first_underscore(Seq::<char>::empty()) == Seq::<char>::empty());
        assert(before_first_underscore(name@) =~= id@);
    }
    Some(id)
}

/// The caption of a source that is no parsable URL (or yields no usable
/// link): the escaped source itself.
pub open spec fn fallback_caption(src: Seq<char>) -> Seq<char> {
    "source: "@ + escape_seq(src) + "\n"@
}

/// The caption of a pixiv-hosted source: a link to the picture's page.
pub open spec fn pixiv_caption(pid: Seq<char>) -> Seq<char> {
    "source: ["@ + escape_seq("www.pixiv.net"@) + "]("@ + escape_seq(
        "https://www.pixiv.net/artworks/"@ + pid,
    ) + ")\n"@
}

/// The caption of an ordinary source URL: its host, linking to the source.
pub open spec fn host_caption(src: Seq<char>, host: Seq<char>) -> Seq<char> {
    "source: ["@ + escape_seq(host) + "]("@ + escape_seq(src) + ")\n"@
}

/// The source line of a post's caption. An empty source contributes nothing.
/// A source hosted on pixiv's image servers links to the picture's page; any
/// other parsable URL with a host links to itself under the host's name;
/// everything else appears escaped, as plain text.
pub open spec fn source_caption(src: Seq<char>) -> Seq<char> {
    if src.len() == 0 {
        Seq::empty()
    } else {
        match source_host_of(src) {
            None => fallback_caption(src),
            Some(host_opt) => {
                if contains_seq(src, "pximg"@) {
                    match pixiv_id_of(src) {
                        Some(pid) => pixiv_caption(pid),
                        None => fallback_caption(src),
                    }
                } else {
                    match host_opt {
                        Some(h) => host_caption(src, h),
                        None => fallback_caption(src),
                    }
                }
            },
        }
    }
}

/// A post's full caption: the source line, then the post's own page,
/// escaped.
pub open spec fn caption_of(p: Post) -> Seq<char> {
    source_caption(p.source@) + escape_seq(
        "https://yande.re/post/show/"@ + int_to_dec(p.id as int),
    )
}

/// Append the fallback source line to `out`.
fn push_fallback(out: &mut Vec<char>, src: &Vec<char>)
    ensures
        final(out)@ == old(out)@ + fallback_caption(src@),
{
    let head = str_to_chars("source: ");
    append_chars(out, &head);
    let esc = escape_chars(src);
    append_chars(out, &esc);
    let nl = str_to_chars("\n");
    append_chars(out, &nl);
}

/// Append a bracketed source line `source: [label](target)` to `out`, with
/// both parts escaped.
fn push_link_caption(out: &mut Vec<char>, label: &Vec<char>, target: &Vec<char>)
    ensures
        final(out)@ == old(out)@ + ("source: ["@ + escape_seq(label@) + "]("@ + escape_seq(
            target@,
        ) + ")\n"@),
{
    let head = str_to_chars("source: [");
    append_chars(out, &head);
    let esc_label = escape_chars(label);
    append_chars(out, &esc_label);
    let mid = str_to_chars("](");
    append_chars(out, &mid);
    let esc_target = escape_chars(target);
    append_chars(out, &esc_target);
    let tail = str_to_chars(")\n");
    append_chars(out, &tail);
}

impl Post {
    /// The caption the transport shows under the post's medium: where the
    /// source came from, then the post's own page, both escaped for the
    /// transport's markup.
    pub fn get_caption(&self) -> (r: String)
        ensures
            r@ == caption_of(*self),
    {
        let mut caption: Vec<char> = Vec::new();
        let src = str_to_chars(self.source.as_str());
        if src.len() > 0 {
            match parse_source_host(self.source.as_str()) {
                Some(host_opt) => {
                    let pximg = str_to_chars("pximg");
                    if contains_chars(&src, &pximg) {
                        match pixiv_id_chars(&src) {
                            Some(pid) => {
                                let label = str_to_chars("www.pixiv.net");
                                let mut target = str_to_chars("https://www.pixiv.net/artworks/");
                                append_chars(&mut target, &pid);
                                push_link_caption(&mut caption, &label, &target);
                            },
                            None => {
                                push_fallback(&mut caption, &src);
                            },
                        }
                    } else {
                        match host_opt {
                            Some(h) => {
                                let host = str_to_chars(h.as_str());
                                push_link_caption(&mut caption, &host, &src);
                            },
                            None => {
                                push_fallback(&mut caption, &src);
                            },
                        }
                    }
                },
                None => {
                    push_fallback(&mut caption, &src);
                },
            }
        }
        let mut link = str_to_chars("https://yande.re/post/show/");
        let digits = format_i64(self.id as i64);
        append_chars(&mut link, &digits);
        let esc_link = escape_chars(&link);
        append_chars(&mut caption, &esc_link);
        proof {
            assert(caption@ =~= source_caption(self.source@) + escape_seq(
                "https://yande.re/post/show/"@ + int_to_dec(self.id as int),
            ));
        }
        chars_to_string(&caption)
    }
}

} // verus!
