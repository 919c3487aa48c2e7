//! The target of a connection: who, where, and on which port.
//!
//! A target is written `user@host` or `user@host:port`. It is accepted when
//! it holds exactly one `@` and, after it, at most one `:`.

use vstd::prelude::*;
use crate::text::chars_of;

verus! {

/// A target identity.
#[derive(Debug, PartialEq, Eq)]
pub struct Target {
    pub user: String,
    pub host: String,
    pub port: String,
}

pub struct TargetView {
    pub user: Seq<char>,
    pub host: Seq<char>,
    pub port: Seq<char>,
}

impl View for Target {
    type V = TargetView;

    open spec fn view(&self) -> TargetView {
        TargetView { user: self.user@, host: self.host@, port: self.port@ }
    }
}

/// Why a target was refused.
#[derive(Clone, Copy, Debug, PartialEq, Eq, Structural)]
pub enum UsageError {
    /// The text does not hold exactly one `@`.
    NotOneAt,
    /// The part after the `@` holds more than one `:`.
    BadHostPort,
}

/// The port of a target that names none.
pub open spec fn default_port() -> Seq<char> {
    seq!['2', '2']
}

/// How often `c` occurs in `s`.
pub open spec fn count(s: Seq<char>, c: char) -> nat
    decreases s.len(),
{
    if s.len() == 0 {
        0
    } else {
        count(s.drop_last(), c) + if s.last() == c {
            1nat
        } else {
            0nat
        }
    }
}

/// The position of the first `c` in `s`, or the length of `s` if there is none.
pub open spec fn first_index(s: Seq<char>, c: char) -> int
    decreases s.len(),
{
    if s.len() == 0 || s[0] == c {
        0
    } else {
        1 + first_index(s.drop_first(), c)
    }
}

/// What the text `s` says as a target.
pub open spec fn target_of(s: Seq<char>) -> Result<TargetView, UsageError> {
    if count(s, '@') != 1 {
        Err(UsageError::NotOneAt)
    } else {
        let at = first_index(s, '@');
        let user = s.take(at);
        let rest = s.skip(at + 1);
        if count(rest, ':') > 1 {
            Err(UsageError::BadHostPort)
        } else if count(rest, ':') == 1 {
            let colon = first_index(rest, ':');
            Ok(TargetView { user, host: rest.take(colon), port: rest.skip(colon + 1) })
        } else {
            Ok(TargetView { user, host: rest, port: default_port() })
        }
    }
}

/// The canonical key of a target: `user@host:port`.
pub open spec fn key_of(t: TargetView) -> Seq<char> {
    t.user + seq!['@'] + t.host + seq![':'] + t.port
}

/// A single character is counted once where it is the one asked for.
pub proof fn lemma_count_single(d: char, c: char)
    ensures
        count(seq![d], c) == if d == c {
            1nat
        } else {
            0nat
        },
{
    reveal_with_fuel(count, 2);
}

/// Counting goes through concatenation.
pub proof fn lemma_count_concat(a: Seq<char>, b: Seq<char>, c: char)
    ensures
        count(a + b, c) == count(a, c) + count(b, c),
    decreases b.len(),
{
    if b.len() > 0 {
        assert((a + b).drop_last() =~= a + b.drop_last());
        lemma_count_concat(a, b.drop_last(), c);
    }
}

/// A character that is counted zero times stands nowhere, and the other way
/// round.
pub proof fn lemma_count_zero(s: Seq<char>, c: char)
    ensures
        count(s, c) == 0 <==> (forall|k: int| 0 <= k < s.len() ==> #[trigger] s[k] != c),
    decreases s.len(),
{
    if s.len() > 0 {
        let t = s.drop_last();
        lemma_count_zero(t, c);
        if count(s, c) == 0 {
            assert forall|k: int| 0 <= k < s.len() implies #[trigger] s[k] != c by {
                if k < t.len() {
                    assert(t[k] == s[k]);
                }
            }
        }
    }
}

/// A position before which `c` does not stand, and at which it stands or `s`
/// ends, is the first index of `c`.
pub proof fn lemma_first_index(s: Seq<char>, c: char, i: int)
    requires
        0 <= i <= s.len(),
        forall|k: int| 0 <= k < i ==> #[trigger] s[k] != c,
        i == s.len() || s[i] == c,
    ensures
        first_index(s, c) == i,
    decreases i,
{
    if i > 0 {
        lemma_first_index(s.drop_first(), c, i - 1);
    }
}

/// `user@host` is read as that user at that host, on the default port.
pub proof fn lemma_parse_user_host(user: Seq<char>, host: Seq<char>)
    requires
        count(user, '@') == 0,
        count(host, '@') == 0,
        count(host, ':') == 0,
    ensures
        target_of(user + seq!['@'] + host) == Ok::<TargetView, UsageError>(
            TargetView { user, host, port: default_port() },
        ),
{
    let s = user + seq!['@'] + host;
    lemma_count_concat(user, seq!['@'], '@');
    lemma_count_concat(user + seq!['@'], host, '@');
    lemma_count_single('@', '@');
    lemma_count_zero(user, '@');
    lemma_first_index(s, '@', user.len() as int);
    assert(s.take(user.len() as int) =~= user);
    assert(s.skip(user.len() as int + 1) =~= host);
}

/// `user@host:port` is read as that user at that host, on that port.
pub proof fn lemma_parse_user_host_port(user: Seq<char>, host: Seq<char>, port: Seq<char>)
    requires
        count(user, '@') == 0,
        count(host, '@') == 0,
        count(host, ':') == 0,
        count(port, '@') == 0,
        count(port, ':') == 0,
    ensures
        target_of(user + seq!['@'] + host + seq![':'] + port) == Ok::<TargetView, UsageError>(
            TargetView { user, host, port },
        ),
{
    let s = user + seq!['@'] + host + seq![':'] + port;
    let rest = host + seq![':'] + port;
    lemma_count_single('@', '@');
    lemma_count_single(':', ':');
    lemma_count_single(':', '@');
    lemma_count_concat(user, seq!['@'], '@');
    lemma_count_concat(user + seq!['@'], host, '@');
    lemma_count_concat(user + seq!['@'] + host, seq![':'], '@');
    lemma_count_concat(user + seq!['@'] + host + seq![':'], port, '@');
    lemma_count_zero(user, '@');
    lemma_first_index(s, '@', user.len() as int);
    assert(s.take(user.len() as int) =~= user);
    assert(s.skip(user.len() as int + 1) =~= rest);
    lemma_count_concat(host, seq![':'], ':');
    lemma_count_concat(host + seq![':'], port, ':');
    lemma_count_zero(host, ':');
    lemma_first_index(rest, ':', host.len() as int);
    assert(rest.take(host.len() as int) =~= host);
    assert(rest.skip(host.len() as int + 1) =~= port);
}

/// The key of a target is read back as that target, where its parts hold no
/// separator.
pub proof fn lemma_key_round_trip(t: TargetView)
    requires
        count(t.user, '@') == 0,
        count(t.host, '@') == 0,
        count(t.host, ':') == 0,
        count(t.port, '@') == 0,
        count(t.port, ':') == 0,
    ensures
        target_of(key_of(t)) == Ok::<TargetView, UsageError>(t),
{
    lemma_parse_user_host_port(t.user, t.host, t.port);
}

/// How often `c` occurs in `v` from `from` up to `to`.
fn count_in(v: &Vec<char>, c: char, from: usize, to: usize) -> (r: usize)
    requires
        from <= to <= v.len(),
    ensures
        r == count(v@.subrange(from as int, to as int), c),
        r <= to - from,
{
    let mut n: usize = 0;
    let mut i: usize = from;
    while i < to
        invariant
            from <= i <= to,
            to <= v.len(),
            n <= i - from,
            n == count(v@.subrange(from as int, i as int), c),
        decreases to - i,
    {
        assert(v@.subrange(from as int, i + 1).drop_last() =~= v@.subrange(
            from as int,
            i as int,
        ));
        if v[i] == c {
            n += 1;
        }
        i += 1;
    }
    n
}

/// The position of the first `c` in `v` from `from` up to `to`, or `to`.
fn find_in(v: &Vec<char>, c: char, from: usize, to: usize) -> (r: usize)
    requires
        from <= to <= v.len(),
    ensures
        from <= r <= to,
        r - from == first_index(v@.subrange(from as int, to as int), c),
        r < to ==> v@[r as int] == c,
        forall|k: int| from <= k < r ==> #[trigger] v@[k] != c,
{
    let mut i: usize = from;
    while i < to && v[i] != c
        invariant
            from <= i <= to,
            to <= v.len(),
            forall|k: int| from <= k < i ==> #[trigger] v@[k] != c,
        decreases to - i,
    {
        i += 1;
    }
    proof {
        lemma_first_index(v@.subrange(from as int, to as int), c, i - from);
    }
    i
}

/// Reads a target written `user@host` or `user@host:port`.
pub fn parse_target(s: &str) -> (r: Result<Target, UsageError>)
    ensures
        match r {
            Ok(t) => target_of(s@) == Ok::<TargetView, UsageError>(t@),
            Err(e) => target_of(s@) == Err::<TargetView, UsageError>(e),
        },
{
    let v = chars_of(s);
    let n = v.len();
    assert(v@.subrange(0, n as int) =~= s@);
    if count_in(&v, '@', 0, n) != 1 {
        return Err(UsageError::NotOneAt);
    }
    let at = find_in(&v, '@', 0, n);
    proof {
        lemma_count_zero(s@, '@');
    }
    let ghost rest = s@.skip(at + 1);
    let colons = count_in(&v, ':', at + 1, n);
    if colons > 1 {
        return Err(UsageError::BadHostPort);
    }
    let user = s.substring_char(0, at).to_owned();
    if colons == 1 {
        let colon = find_in(&v, ':', at + 1, n);
        proof {
            lemma_count_zero(rest, ':');
        }
        let host = s.substring_char(at + 1, colon).to_owned();
        let port = s.substring_char(colon + 1, n).to_owned();
        assert(s@.subrange(at + 1, colon as int) =~= rest.take(colon - (at + 1)));
        assert(s@.subrange(colon + 1, n as int) =~= rest.skip(colon - (at + 1) + 1));
        Ok(Target { user, host, port })
    } else {
        let host = s.substring_char(at + 1, n).to_owned();
        let port = "22".to_owned();
        proof {
            reveal_strlit("22");
            assert("22"@ =~= default_port());
        }
        Ok(Target { user, host, port })
    }
}

impl Target {
    /// The canonical key of the target: `user@host:port`.
    pub fn key(&self) -> (r: String)
        ensures
            r@ == key_of(self@),
    {
        proof {
            reveal_strlit("@");
            reveal_strlit(":");
        }
        let mut out = self.user.clone();
        out.append("@");
        out.append(self.host.as_str());
        out.append(":");
        out.append(self.port.as_str());
        out
    }
}

} // verus!
