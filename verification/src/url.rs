//! Building request URLs.
//!
//! A switch name is used verbatim as a path segment except that every space
//! is replaced with `%20`; no other character is escaped.

use vstd::prelude::*;

verus! {

/// How one character of a switch name appears in the URL: a space becomes
/// `%20`; every other character is kept as it is.
pub open spec fn encoded_char(c: char) -> Seq<char> {
    if c == ' ' {
        "%20"@
    } else {
        seq![c]
    }
}

/// A switch name as it appears in the URL path.
pub open spec fn encoded_name(s: Seq<char>) -> Seq<char>
    decreases s.len(),
{
    if s.len() == 0 {
        Seq::<char>::empty()
    } else {
        encoded_char(s[0]) + encoded_name(s.skip(1))
    }
}

/// Encoding one more character appends that character's encoding.
pub proof fn lemma_encoded_name_push(s: Seq<char>, c: char)
    ensures
        encoded_name(s.push(c)) == encoded_name(s) + encoded_char(c),
    decreases s.len(),
{
    assert(encoded_name(s.push(c)) == encoded_char(s.push(c)[0]) + encoded_name(s.push(c).skip(1)));
    if s.len() == 0 {
        assert(s.push(c).skip(1) =~= Seq::<char>::empty());
        assert(s.push(c)[0] == c);
        assert(encoded_name(Seq::<char>::empty()) == Seq::<char>::empty());
        assert(encoded_char(c) + Seq::<char>::empty() =~= encoded_char(c));
        assert(encoded_name(s) + encoded_char(c) =~= encoded_char(c));
    } else {
        assert(s.push(c).skip(1) =~= s.skip(1).push(c));
        assert(s.push(c)[0] == s[0]);
        lemma_encoded_name_push(s.skip(1), c);
        assert(encoded_name(s) == encoded_char(s[0]) + encoded_name(s.skip(1)));
        assert(encoded_char(s[0]) + (encoded_name(s.skip(1)) + encoded_char(c)) =~= (encoded_char(
            s[0],
        ) + encoded_name(s.skip(1))) + encoded_char(c));
    }
}

/// Encoding distributes over concatenation: each part of a name is encoded
/// on its own.
pub proof fn lemma_encoded_name_concat(a: Seq<char>, b: Seq<char>)
    ensures
        encoded_name(a + b) == encoded_name(a) + encoded_name(b),
    decreases a.len(),
{
    if a.len() == 0 {
        assert(a + b =~= b);
        assert(encoded_name(a) + encoded_name(b) =~= encoded_name(b));
    } else {
        assert((a + b).skip(1) =~= a.skip(1) + b);
        assert((a + b)[0] == a[0]);
        lemma_encoded_name_concat(a.skip(1), b);
        assert(encoded_char(a[0]) + (encoded_name(a.skip(1)) + encoded_name(b)) =~= (encoded_char(
            a[0],
        ) + encoded_name(a.skip(1))) + encoded_name(b));
    }
}

/// A name without spaces is unchanged by encoding: nothing but spaces is
/// touched.
pub proof fn lemma_encoded_name_no_spaces(s: Seq<char>)
    requires
        forall|i: int| 0 <= i < s.len() ==> s[i] != ' ',
    ensures
        encoded_name(s) == s,
    decreases s.len(),
{
    if s.len() == 0 {
        assert(encoded_name(s) =~= s);
    } else {
        lemma_encoded_name_no_spaces(s.skip(1));
        assert(encoded_char(s[0]) =~= seq![s[0]]);
        assert(seq![s[0]] + s.skip(1) =~= s);
    }
}

/// A single space encodes to `%20`; any other single character stands alone
/// unchanged.
pub proof fn lemma_encoded_name_single(c: char)
    ensures
        c == ' ' ==> encoded_name(seq![c]) == "%20"@,
        c != ' ' ==> encoded_name(seq![c]) == seq![c],
{
    assert(seq![c].len() == 1);
    assert(seq![c][0] == c);
    assert(seq![c].skip(1) =~= Seq::<char>::empty());
    assert(encoded_name(Seq::<char>::empty()) == Seq::<char>::empty());
    assert(encoded_name(seq![c]) == encoded_char(c) + encoded_name(seq![c].skip(1)));
    assert(encoded_char(c) + Seq::<char>::empty() =~= encoded_char(c));
}

/// Replaces every space in a switch name with `%20`, leaving every other
/// character as it is.
pub fn encode_switch_name(name: &str) -> (r: String)
    ensures
        r@ == encoded_name(name@),
{
    let n: usize = name.unicode_len();
    let mut out: String = String::new();
    let mut i: usize = 0;
    while i < n
        invariant
            n == name@.len(),
            i <= n,
            out@ == encoded_name(name@.take(i as int)),
        decreases n - i,
    {
        let c: char = name.get_char(i);
        if c == ' ' {
            out.append("%20");
        } else {
            let piece: &str = name.substring_char(i, i + 1);
            proof {
                assert(name@.subrange(i as int, i + 1) =~= seq![name@[i as int]]);
            }
            out.append(piece);
        }
        proof {
            lemma_encoded_name_push(name@.take(i as int), name@[i as int]);
            assert(name@.take(i + 1) =~= name@.take(i as int).push(name@[i as int]));
        }
        i += 1;
    }
    proof {
        assert(name@.take(n as int) =~= name@);
    }
    out
}

/// The URL that addresses one switch.
pub open spec fn switch_url(addr: Seq<char>, name: Seq<char>) -> Seq<char> {
    addr + "api/switch/"@ + encoded_name(name)
}

/// The URL that lists all switches.
pub open spec fn switches_url(addr: Seq<char>) -> Seq<char> {
    addr + "api/switches/"@
}

/// Builds the URL for one switch: the server address, the fixed path
/// `api/switch/`, then the encoded switch name.
pub fn to_switch_url(server_addr: String, switch_name: String) -> (r: String)
    ensures
        r@ == switch_url(server_addr@, switch_name@),
{
    let mut out: String = server_addr;
    out.append("api/switch/");
    let encoded: String = encode_switch_name(switch_name.as_str());
    out.append(encoded.as_str());
    out
}

/// Builds the URL that lists all switches.
pub fn to_switches_url(server_addr: String) -> (r: String)
    ensures
        r@ == switches_url(server_addr@),
{
    let mut out: String = server_addr;
    out.append("api/switches/");
    out
}

} // verus!
