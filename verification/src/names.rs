//! Operation names, and the names that no operation may take.

use vstd::prelude::*;
use vstd::string::*;

verus! {

/// The name of the control channel of the transport.
pub open spec fn control_channel() -> Seq<char> {
    seq!['w', 's']
}

/// The two prefixes under which the framework keeps its own names.
pub open spec fn short_prefix() -> Seq<char> {
    seq!['r', 'p', 'c', '.']
}

pub open spec fn long_prefix() -> Seq<char> {
    seq!['r', 's', 'p', 'c', '.']
}

/// A name is reserved when it is empty, is the control channel's name, or
/// starts with one of the framework's prefixes.
pub open spec fn is_reserved(key: Seq<char>) -> bool {
    ||| key.len() == 0
    ||| key == control_channel()
    ||| short_prefix().is_prefix_of(key)
    ||| long_prefix().is_prefix_of(key)
}

/// The empty name, the control channel's name and every name under one of
/// the framework's prefixes are reserved.
pub proof fn lemma_reserved_names(rest: Seq<char>)
    ensures
        is_reserved(Seq::empty()),
        is_reserved(control_channel()),
        is_reserved(short_prefix() + rest),
        is_reserved(long_prefix() + rest),
{
    assert((short_prefix() + rest).subrange(0, short_prefix().len() as int) =~= short_prefix());
    assert((long_prefix() + rest).subrange(0, long_prefix().len() as int) =~= long_prefix());
}

/// Whether `key` begins with `prefix`, character by character.
pub fn starts_with(key: &str, prefix: &str) -> (r: bool)
    ensures
        r == prefix@.is_prefix_of(key@),
{
    let n: usize = prefix.unicode_len();
    if key.unicode_len() < n {
        return false;
    }
    let mut i: usize = 0;
    while i < n
        invariant
            i <= n,
            n == prefix@.len(),
            n <= key@.len(),
            forall|j: int| 0 <= j < i ==> key@[j] == prefix@[j],
        decreases n - i,
    {
        if key.get_char(i) != prefix.get_char(i) {
            assert(key@.subrange(0, n as int)[i as int] != prefix@[i as int]);
            return false;
        }
        i += 1;
    }
    assert(key@.subrange(0, n as int) =~= prefix@);
    true
}

/// Decides whether an operation may not be called `key`.
pub fn is_reserved_name(key: &str) -> (r: bool)
    ensures
        r == is_reserved(key@),
{
    proof {
        reveal_strlit("ws");
        reveal_strlit("rpc.");
        reveal_strlit("rspc.");
        assert("ws"@ =~= control_channel());
        assert("rpc."@ =~= short_prefix());
        assert("rspc."@ =~= long_prefix());
    }
    let len: usize = key.unicode_len();
    if len == 0 {
        return true;
    }
    if len == 2 && starts_with(key, "ws") {
        assert(key@ =~= key@.subrange(0, 2));
        return true;
    }
    assert(key@ != control_channel()) by {
        if key@ == control_channel() {
            assert(key@.subrange(0, 2) =~= key@);
        }
    }
    starts_with(key, "rpc.") || starts_with(key, "rspc.")
}

} // verus!
