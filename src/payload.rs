//! The plaintext carried inside the session cookie: the fingerprint of the
//! request that issued it and the user key, if any.
//!
//! Layout: the fingerprint with `\` and `:` escaped by a `\`, then `:`, then
//! `-` when there is no user, or `+` followed by the user key.
use vstd::prelude::*;
use crate::login_info::opt_chars;
use crate::text::{chars_of, push_str, string_of};

verus! {

/// The escaped form of one fingerprint character.
pub open spec fn esc_char(c: char) -> Seq<char> {
    if c == '\\' || c == ':' {
        seq!['\\', c]
    } else {
        seq![c]
    }
}

/// The escaped form of a fingerprint.
pub open spec fn escape(s: Seq<char>) -> Seq<char>
    decreases s.len(),
{
    if s.len() == 0 {
        Seq::empty()
    } else {
        esc_char(s[0]) + escape(s.drop_first())
    }
}

/// The part of the payload after the separator.
pub open spec fn user_tag(user: Option<Seq<char>>) -> Seq<char> {
    match user {
        None => seq!['-'],
        Some(k) => seq!['+'] + k,
    }
}

/// The payload for a fingerprint and an optional user key.
pub open spec fn frame(fp: Seq<char>, user: Option<Seq<char>>) -> Seq<char> {
    escape(fp) + seq![':'] + user_tag(user)
}

/// Prefixes the first part of a split result.
pub open spec fn with_prefix(acc: Seq<char>, o: Option<(Seq<char>, Seq<char>)>) -> Option<
    (Seq<char>, Seq<char>),
> {
    match o {
        Some((a, r)) => Some((acc + a, r)),
        None => None,
    }
}

/// Reads an escaped field up to the first unescaped `:`, returning the
/// unescaped field and what follows the `:`.
pub open spec fn split_field(p: Seq<char>) -> Option<(Seq<char>, Seq<char>)>
    decreases p.len(),
{
    if p.len() == 0 {
        None
    } else if p[0] == ':' {
        Some((Seq::empty(), p.drop_first()))
    } else if p[0] == '\\' {
        if p.len() < 2 {
            None
        } else {
            with_prefix(seq![p[1]], split_field(p.subrange(2, p.len() as int)))
        }
    } else {
        with_prefix(seq![p[0]], split_field(p.drop_first()))
    }
}

/// Reads the part after the separator.
pub open spec fn parse_tag(t: Seq<char>) -> Option<Option<Seq<char>>> {
    if t == seq!['-'] {
        Some(None)
    } else if t.len() >= 1 && t[0] == '+' {
        Some(Some(t.drop_first()))
    } else {
        None
    }
}

/// The fingerprint and user key of a payload, if it is well formed.
pub open spec fn unframe(p: Seq<char>) -> Option<(Seq<char>, Option<Seq<char>>)> {
    match split_field(p) {
        Some((fp, rest)) => match parse_tag(rest) {
            Some(u) => Some((fp, u)),
            None => None,
        },
        None => None,
    }
}

/// The user key that a payload grants to a request with fingerprint `fp`:
/// none unless the payload is well formed and was issued for `fp`.
pub open spec fn user_for(p: Seq<char>, fp: Seq<char>) -> Option<Seq<char>> {
    match unframe(p) {
        Some((f, u)) => if f == fp {
            u
        } else {
            None
        },
        None => None,
    }
}

proof fn lemma_escape_push(a: Seq<char>, c: char)
    ensures
        escape(a.push(c)) == escape(a) + esc_char(c),
    decreases a.len(),
{
    if a.len() == 0 {
        assert(a.push(c).drop_first() =~= Seq::<char>::empty());
        assert(a.push(c)[0] == c);
        assert(escape(Seq::<char>::empty()) == Seq::<char>::empty());
        assert(esc_char(c) + Seq::<char>::empty() =~= esc_char(c));
        assert(a =~= Seq::<char>::empty());
    } else {
        assert(a.push(c).drop_first() =~= a.drop_first().push(c));
        lemma_escape_push(a.drop_first(), c);
        assert(escape(a.push(c)) =~= escape(a) + esc_char(c));
    }
}

proof fn lemma_split_escaped(a: Seq<char>, b: Seq<char>)
    ensures
        split_field(escape(a) + seq![':'] + b) == Some((a, b)),
    decreases a.len(),
{
    let p = escape(a) + seq![':'] + b;
    if a.len() == 0 {
        assert(p =~= seq![':'] + b);
        assert(p.drop_first() =~= b);
    } else {
        let c = a[0];
        let q = escape(a.drop_first()) + seq![':'] + b;
        lemma_split_escaped(a.drop_first(), b);
        if c == '\\' || c == ':' {
            assert(p =~= seq!['\\', c] + q);
            assert(p.subrange(2, p.len() as int) =~= q);
        } else {
            assert(p =~= seq![c] + q);
            assert(p.drop_first() =~= q);
        }
        assert(seq![c] + a.drop_first() =~= a);
    }
}

/// A payload reads back as the fingerprint and user key it was made of.
pub proof fn lemma_unframe_frame(fp: Seq<char>, user: Option<Seq<char>>)
    ensures
        unframe(frame(fp, user)) == Some((fp, user)),
{
    lemma_split_escaped(fp, user_tag(user));
    match user {
        None => {},
        Some(k) => {
            assert((seq!['+'] + k).drop_first() =~= k);
            assert(seq!['+'] + k != seq!['-']) by {
                if k.len() == 0 {
                    assert((seq!['+'] + k)[0] == '+');
                } else {
                    assert((seq!['+'] + k).len() != 1);
                }
            }
        },
    }
}

/// Round trip: a payload issued for fingerprint `fp` grants exactly the
/// user key it carries to a request with the same fingerprint.
pub proof fn lemma_payload_round_trip(fp: Seq<char>, user: Option<Seq<char>>)
    ensures
        user_for(frame(fp, user), fp) == user,
{
    lemma_unframe_frame(fp, user);
}

/// Fingerprint binding: a payload issued for `f1` grants nothing to a
/// request whose fingerprint `f2` differs from `f1`.
pub proof fn lemma_payload_binding(f1: Seq<char>, f2: Seq<char>, user: Option<Seq<char>>)
    requires
        f1 != f2,
    ensures
        user_for(frame(f1, user), f2) == None::<Seq<char>>,
{
    lemma_unframe_frame(f1, user);
}

/// Builds the payload for fingerprint `fp` and user key `user`.
pub fn frame_payload(fp: &str, user: &Option<String>) -> (r: String)
    ensures
        r@ == frame(fp@, opt_chars(*user)),
{
    let f = chars_of(fp);
    let n = f.len();
    let mut out: Vec<char> = Vec::new();
    let mut i: usize = 0;
    while i < n
        invariant
            0 <= i <= n == f@.len(),
            f@ == fp@,
            out@ == escape(f@.subrange(0, i as int)),
        decreases n - i,
    {
        let c = f[i];
        proof {
            assert(f@.subrange(0, i + 1) =~= f@.subrange(0, i as int).push(c));
            lemma_escape_push(f@.subrange(0, i as int), c);
        }
        if c == '\\' || c == ':' {
            out.push('\\');
        }
        out.push(c);
        assert(out@ =~= escape(f@.subrange(0, i + 1)));
        i = i + 1;
    }
    assert(f@.subrange(0, n as int) =~= f@);
    out.push(':');
    match user {
        None => {
            out.push('-');
        },
        Some(k) => {
            out.push('+');
            push_str(&mut out, k.as_str());
        },
    }
    assert(out@ =~= frame(fp@, opt_chars(*user)));
    string_of(&out)
}

/// Reads the fingerprint and user key out of a payload.
pub fn unframe_payload(payload: &str) -> (r: Option<(String, Option<String>)>)
    ensures
        match r {
            Some((f, u)) => unframe(payload@) == Some((f@, opt_chars(u))),
            None => unframe(payload@) is None,
        },
{
    let p = chars_of(payload);
    let n = p.len();
    let mut acc: Vec<char> = Vec::new();
    let mut i: usize = 0;
    let mut sep: usize = n;
    assert(p@.subrange(0, n as int) =~= p@);
    while i < n
        invariant_except_break
            sep == n,
        invariant
            0 <= i <= n == p@.len(),
            p@ == payload@,
            split_field(p@) == with_prefix(acc@, split_field(p@.subrange(i as int, n as int))),
        ensures
            (sep == n && i >= n) || (sep == i && i < n && p@[i as int] == ':'),
        decreases n - i,
    {
        let c = p[i];
        let ghost rest = p@.subrange(i as int, n as int);
        if c == ':' {
            assert(rest[0] == ':');
            sep = i;
            break;
        } else if c == '\\' {
            if i + 1 >= n {
                assert(split_field(rest) is None);
                return None;
            }
            let d = p[i + 1];
            proof {
                assert(rest.subrange(2, rest.len() as int) =~= p@.subrange(i + 2, n as int));
                let tail = split_field(p@.subrange(i + 2, n as int));
                match tail {
                    Some((a, r)) => {
                        assert(acc@ + (seq![d] + a) =~= acc@.push(d) + a);
                    },
                    None => {},
                }
            }
            acc.push(d);
            i = i + 2;
        } else {
            proof {
                assert(rest.drop_first() =~= p@.subrange(i + 1, n as int));
                let tail = split_field(p@.subrange(i + 1, n as int));
                match tail {
                    Some((a, r)) => {
                        assert(acc@ + (seq![c] + a) =~= acc@.push(c) + a);
                    },
                    None => {},
                }
            }
            acc.push(c);
            i = i + 1;
        }
    }
    if sep == n {
        assert(p@.subrange(n as int, n as int).len() == 0);
        return None;
    }
    let ghost rest = p@.subrange(sep as int, n as int);
    assert(rest.drop_first() =~= p@.subrange(sep + 1, n as int));
    assert(acc@ + Seq::<char>::empty() =~= acc@);
    let mut tail: Vec<char> = Vec::new();
    let mut k: usize = sep + 1;
    while k < n
        invariant
            sep < k <= n == p@.len(),
            tail@ == p@.subrange(sep + 1, k as int),
        decreases n - k,
    {
        tail.push(p[k]);
        assert(tail@ =~= p@.subrange(sep + 1, k + 1));
        k = k + 1;
    }
    let fp = string_of(&acc);
    let t = tail.len();
    if t == 1 && tail[0] == '-' {
        assert(tail@ =~= seq!['-']);
        Some((fp, None))
    } else if t >= 1 && tail[0] == '+' {
        let mut key: Vec<char> = Vec::new();
        let mut j: usize = 1;
        while j < t
            invariant
                1 <= j <= t == tail@.len(),
                key@ == tail@.subrange(1, j as int),
            decreases t - j,
        {
            key.push(tail[j]);
            assert(key@ =~= tail@.subrange(1, j + 1));
            j = j + 1;
        }
        assert(key@ =~= tail@.drop_first());
        if t == 1 {
            assert(tail@ != seq!['-']);
        } else {
            assert(tail@.len() != 1);
        }
        Some((fp, Some(string_of(&key))))
    } else {
        if t == 1 {
            assert(tail@ != seq!['-']) by {
                assert(tail@[0] != '-');
            }
        } else {
            assert(tail@.len() != seq!['-'].len());
        }
        None
    }
}

/// The user key that `payload` grants to a request with fingerprint `fp`.
pub fn user_for_payload(payload: &str, fp: &str) -> (r: Option<String>)
    ensures
        opt_chars(r) == user_for(payload@, fp@),
{
    match unframe_payload(payload) {
        Some((f, u)) => {
            if crate::text::same_chars(f.as_str(), fp) {
                u
            } else {
                None
            }
        },
        None => None,
    }
}

} // verus!
