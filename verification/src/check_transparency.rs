//! Whether the graphics stack can show a transparent window, told from the
//! report of a diagnostic tool. Running the tool is the caller's part.

use vstd::prelude::*;

verus! {

/// Whether `needle` stands in `haystack` at position `at`.
pub open spec fn occurs_at(haystack: Seq<u8>, needle: Seq<u8>, at: int) -> bool {
    &&& 0 <= at
    &&& at + needle.len() <= haystack.len()
    &&& haystack.subrange(at, at + needle.len()) == needle
}

/// Whether `needle` stands somewhere in `haystack`.
pub open spec fn contains_bytes(haystack: Seq<u8>, needle: Seq<u8>) -> bool {
    exists|at: int| occurs_at(haystack, needle, at)
}

/// The name of the alpha mode in which colours come multiplied by alpha, in
/// ASCII: `PreMultiplied`.
pub open spec fn pre_multiplied() -> Seq<u8> {
    seq![80u8, 114u8, 101u8, 77u8, 117u8, 108u8, 116u8, 105u8, 112u8, 108u8, 105u8, 101u8, 100u8]
}

/// The name of the alpha mode in which the compositor multiplies, in ASCII:
/// `PostMultiplied`.
pub open spec fn post_multiplied() -> Seq<u8> {
    seq![
        80u8,
        111u8,
        115u8,
        116u8,
        77u8,
        117u8,
        108u8,
        116u8,
        105u8,
        112u8,
        108u8,
        105u8,
        101u8,
        100u8,
    ]
}

/// Whether a report names an alpha mode that allows transparent windows.
pub open spec fn names_alpha_mode(report: Seq<u8>) -> bool {
    contains_bytes(report, pre_multiplied()) || contains_bytes(report, post_multiplied())
}

fn matches_at(haystack: &[u8], needle: &[u8], at: usize) -> (matches: bool)
    requires
        at + needle.len() <= haystack.len(),
    ensures
        matches == occurs_at(haystack@, needle@, at as int),
{
    let mut offset: usize = 0;
    while offset < needle.len()
        invariant
            offset <= needle.len(),
            at + needle.len() <= haystack.len(),
            forall|index: int| 0 <= index < offset ==> haystack@[at + index] == needle@[index],
        decreases needle.len() - offset,
    {
        if haystack[at + offset] != needle[offset] {
            assert(haystack@.subrange(at as int, at + needle.len())[offset as int]
                != needle@[offset as int]);
            return false;
        }
        offset = offset + 1;
    }
    assert(haystack@.subrange(at as int, at + needle.len()) =~= needle@);
    true
}

/// Says whether `needle` stands somewhere in `haystack`.
pub fn find_bytes(haystack: &[u8], needle: &[u8]) -> (found: bool)
    ensures
        found == contains_bytes(haystack@, needle@),
{
    if needle.len() > haystack.len() {
        return false;
    }
    if needle.len() == 0 {
        assert(haystack@.subrange(0, 0) =~= needle@);
        assert(occurs_at(haystack@, needle@, 0));
        return true;
    }
    let last = haystack.len() - needle.len();
    let mut at: usize = 0;
    while at <= last
        invariant
            at <= last + 1,
            0 < needle.len(),
            last + needle.len() == haystack.len(),
            forall|earlier: int| 0 <= earlier < at ==> !occurs_at(haystack@, needle@, earlier),
        decreases last + 1 - at,
    {
        if matches_at(haystack, needle, at) {
            return true;
        }
        at = at + 1;
    }
    false
}

/// Says whether transparent windows are supported, given the report of the
/// diagnostic tool or nothing where the tool could not be run. A report
/// speaks for support exactly if it names a premultiplied or a
/// postmultiplied alpha mode; without a report support is taken for granted.
pub fn check_transparency_support(report: Option<&[u8]>) -> (supported: bool)
    ensures
        supported == match report {
            Some(output) => names_alpha_mode(output@),
            None => true,
        },
{
    match report {
        Some(output) => {
            let pre = vec![
                80u8,
                114u8,
                101u8,
                77u8,
                117u8,
                108u8,
                116u8,
                105u8,
                112u8,
                108u8,
                105u8,
                101u8,
                100u8,
            ];
            let post = vec![
                80u8,
                111u8,
                115u8,
                116u8,
                77u8,
                117u8,
                108u8,
                116u8,
                105u8,
                112u8,
                108u8,
                105u8,
                101u8,
                100u8,
            ];
            assert(pre@ =~= pre_multiplied());
            assert(post@ =~= post_multiplied());
            find_bytes(output, pre.as_slice()) || find_bytes(output, post.as_slice())
        },
        None => true,
    }
}

} // verus!
