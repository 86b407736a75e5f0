use vstd::prelude::*;
use vstd::string::StrSliceExecFns;
use vstd::string::StringExecFns;

verus! {

/// The parts of a request URI that decide how to connect to it.
#[derive(Debug)]
pub struct Target {
    pub scheme: Option<String>,
    pub host: Option<String>,
}

pub open spec fn is_bracket(c: char) -> bool {
    c == '[' || c == ']'
}

/// `s` without its leading brackets.
pub open spec fn trim_start_spec(s: Seq<char>) -> Seq<char>
    decreases s.len(),
{
    if s.len() > 0 && is_bracket(s[0]) {
        trim_start_spec(s.drop_first())
    } else {
        s
    }
}

/// `s` without its trailing brackets.
pub open spec fn trim_end_spec(s: Seq<char>) -> Seq<char>
    decreases s.len(),
{
    if s.len() > 0 && is_bracket(s.last()) {
        trim_end_spec(s.drop_last())
    } else {
        s
    }
}

/// `s` with the brackets at both of its ends removed, as in `[::1]`.
pub open spec fn trim_brackets_spec(s: Seq<char>) -> Seq<char> {
    trim_end_spec(trim_start_spec(s))
}

/// The name presented in the TLS handshake: the host without brackets,
/// or the empty name where the target has no host.
pub open spec fn server_name_spec(t: Target) -> Seq<char> {
    match t.host {
        Some(h) => trim_brackets_spec(h@),
        None => Seq::empty(),
    }
}

pub open spec fn is_https_spec(t: Target) -> bool {
    match t.scheme {
        Some(s) => s@ == "https"@,
        None => false,
    }
}

/// Removes the `[` and `]` characters at both ends of `s`.
pub fn trim_brackets(s: &str) -> (r: String)
    ensures
        r@ == trim_brackets_spec(s@),
{
    let n = s.unicode_len();
    let mut i: usize = 0;
    assert(s@.subrange(0, n as int) =~= s@);
    while i < n && is_bracket_char(s.get_char(i))
        invariant
            n == s@.len(),
            i <= n,
            trim_start_spec(s@) == trim_start_spec(s@.subrange(i as int, n as int)),
        decreases n - i,
    {
        assert(s@.subrange(i as int, n as int).drop_first() =~= s@.subrange(i + 1, n as int));
        i = i + 1;
    }
    assert(trim_start_spec(s@.subrange(i as int, n as int)) == s@.subrange(i as int, n as int));
    let mut j: usize = n;
    while j > i && is_bracket_char(s.get_char(j - 1))
        invariant
            n == s@.len(),
            i <= j <= n,
            trim_end_spec(s@.subrange(i as int, n as int)) == trim_end_spec(
                s@.subrange(i as int, j as int),
            ),
        decreases j - i,
    {
        assert(s@.subrange(i as int, j as int).drop_last() =~= s@.subrange(i as int, j - 1));
        j = j - 1;
    }
    assert(trim_end_spec(s@.subrange(i as int, j as int)) == s@.subrange(i as int, j as int));
    s.substring_char(i, j).to_owned()
}

fn is_bracket_char(c: char) -> (r: bool)
    ensures
        r == is_bracket(c),
{
    c == '[' || c == ']'
}

/// The server name for the handshake with `t`.
pub fn server_name(t: &Target) -> (r: String)
    ensures
        r@ == server_name_spec(*t),
{
    match &t.host {
        Some(h) => trim_brackets(h.as_str()),
        None => String::new(),
    }
}

/// Whether `t` asks for the `https` scheme.
pub fn is_https(t: &Target) -> (r: bool)
    ensures
        r == is_https_spec(*t),
{
    match &t.scheme {
        Some(s) => {
            let https = String::from_str("https");
            proof {
                reveal_strlit("https");
            }
            s.eq(&https)
        },
        None => false,
    }
}

} // verus!
