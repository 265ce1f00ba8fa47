//! The complementary-archetype bonus table.
//!
//! Four fixed pairs of archetype labels earn a rating bonus:
//! builder/designer, hacker/mentor, explorer/analyst, creator/connector.
//! Matching is ASCII-case-insensitive and order-independent.

use vstd::prelude::*;

verus! {

/// The ASCII-lowercased counterpart of one byte.
pub open spec fn lower_byte(b: u8) -> u8 {
    if 'A' as u8 <= b && b <= 'Z' as u8 {
        (b + 32) as u8
    } else {
        b
    }
}

/// The ASCII-lowercased counterpart of a byte string.
pub open spec fn lower_bytes(s: Seq<u8>) -> Seq<u8> {
    s.map_values(|b: u8| lower_byte(b))
}

/// The eight labels of the bonus table, and everything else.
#[derive(PartialEq, Eq, Structural, Clone, Copy, Debug)]
pub enum ArchetypeClass {
    Builder,
    Designer,
    Hacker,
    Mentor,
    Explorer,
    Analyst,
    Creator,
    Connector,
    Other,
}

/// The label "builder", lowercased.
pub open spec fn builder_label() -> Seq<u8> {
    seq!['b' as u8, 'u' as u8, 'i' as u8, 'l' as u8, 'd' as u8, 'e' as u8, 'r' as u8]
}

/// The label "designer", lowercased.
pub open spec fn designer_label() -> Seq<u8> {
    seq!['d' as u8, 'e' as u8, 's' as u8, 'i' as u8, 'g' as u8, 'n' as u8, 'e' as u8, 'r' as u8]
}

/// The label "hacker", lowercased.
pub open spec fn hacker_label() -> Seq<u8> {
    seq!['h' as u8, 'a' as u8, 'c' as u8, 'k' as u8, 'e' as u8, 'r' as u8]
}

/// The label "mentor", lowercased.
pub open spec fn mentor_label() -> Seq<u8> {
    seq!['m' as u8, 'e' as u8, 'n' as u8, 't' as u8, 'o' as u8, 'r' as u8]
}

/// The label "explorer", lowercased.
pub open spec fn explorer_label() -> Seq<u8> {
    seq!['e' as u8, 'x' as u8, 'p' as u8, 'l' as u8, 'o' as u8, 'r' as u8, 'e' as u8, 'r' as u8]
}

/// The label "analyst", lowercased.
pub open spec fn analyst_label() -> Seq<u8> {
    seq!['a' as u8, 'n' as u8, 'a' as u8, 'l' as u8, 'y' as u8, 's' as u8, 't' as u8]
}

/// The label "creator", lowercased.
pub open spec fn creator_label() -> Seq<u8> {
    seq!['c' as u8, 'r' as u8, 'e' as u8, 'a' as u8, 't' as u8, 'o' as u8, 'r' as u8]
}

/// The label "connector", lowercased.
pub open spec fn connector_label() -> Seq<u8> {
    seq!['c' as u8, 'o' as u8, 'n' as u8, 'n' as u8, 'e' as u8, 'c' as u8, 't' as u8, 'o' as u8, 'r' as u8]
}

/// Which table entry a label names, ignoring ASCII case.
pub open spec fn class_of(s: Seq<u8>) -> ArchetypeClass {
    let l = lower_bytes(s);
    if l == builder_label() {
        ArchetypeClass::Builder
    } else if l == designer_label() {
        ArchetypeClass::Designer
    } else if l == hacker_label() {
        ArchetypeClass::Hacker
    } else if l == mentor_label() {
        ArchetypeClass::Mentor
    } else if l == explorer_label() {
        ArchetypeClass::Explorer
    } else if l == analyst_label() {
        ArchetypeClass::Analyst
    } else if l == creator_label() {
        ArchetypeClass::Creator
    } else if l == connector_label() {
        ArchetypeClass::Connector
    } else {
        ArchetypeClass::Other
    }
}

/// The four fixed pairs, read left to right.
pub open spec fn paired(x: ArchetypeClass, y: ArchetypeClass) -> bool {
    ||| (x == ArchetypeClass::Builder && y == ArchetypeClass::Designer)
    ||| (x == ArchetypeClass::Hacker && y == ArchetypeClass::Mentor)
    ||| (x == ArchetypeClass::Explorer && y == ArchetypeClass::Analyst)
    ||| (x == ArchetypeClass::Creator && y == ArchetypeClass::Connector)
}

/// Two labels are complementary when their classes form one of the four
/// fixed pairs, in either order.
pub open spec fn complementary(a: Seq<u8>, b: Seq<u8>) -> bool {
    paired(class_of(a), class_of(b)) || paired(class_of(b), class_of(a))
}

/// ASCII-lowercase a byte string.
fn lower_vec(s: &Vec<u8>) -> (r: Vec<u8>)
    ensures
        r@ == lower_bytes(s@),
{
    let mut r: Vec<u8> = Vec::new();
    let mut i: usize = 0;
    while i < s.len()
        invariant
            i <= s@.len(),
            r@.len() == i,
            forall|k: int| 0 <= k < i ==> r@[k] == lower_byte(s@[k]),
        decreases s@.len() - i,
    {
        let b = s[i];
        if 'A' as u8 <= b && b <= 'Z' as u8 {
            r.push(b + 32);
        } else {
            r.push(b);
        }
        i += 1;
    }
    proof {
        assert(r@ =~= lower_bytes(s@));
    }
    r
}

/// Compare a byte vector with a fixed-size byte array.
fn bytes_match<const N: usize>(a: &Vec<u8>, b: &[u8; N]) -> (r: bool)
    ensures
        r == (a@ == b@),
{
    if a.len() != N {
        proof {
            assert(a@.len() != b@.len());
        }
        return false;
    }
    let mut i: usize = 0;
    while i < N
        invariant
            a@.len() == N,
            b@.len() == N,
            i <= N,
            forall|k: int| 0 <= k < i ==> a@[k] == b@[k],
        decreases N - i,
    {
        if a[i] != b[i] {
            return false;
        }
        i += 1;
    }
    proof {
        assert(a@ =~= b@);
    }
    true
}

/// Which table entry a label names, ignoring ASCII case.
pub fn classify(s: &Vec<u8>) -> (c: ArchetypeClass)
    ensures
        c == class_of(s@),
{
    let l = lower_vec(s);
    let builder: [u8; 7] = ['b' as u8, 'u' as u8, 'i' as u8, 'l' as u8, 'd' as u8, 'e' as u8, 'r' as u8];
    let designer: [u8; 8] = ['d' as u8, 'e' as u8, 's' as u8, 'i' as u8, 'g' as u8, 'n' as u8, 'e' as u8, 'r' as u8];
    let hacker: [u8; 6] = ['h' as u8, 'a' as u8, 'c' as u8, 'k' as u8, 'e' as u8, 'r' as u8];
    let mentor: [u8; 6] = ['m' as u8, 'e' as u8, 'n' as u8, 't' as u8, 'o' as u8, 'r' as u8];
    let explorer: [u8; 8] = ['e' as u8, 'x' as u8, 'p' as u8, 'l' as u8, 'o' as u8, 'r' as u8, 'e' as u8, 'r' as u8];
    let analyst: [u8; 7] = ['a' as u8, 'n' as u8, 'a' as u8, 'l' as u8, 'y' as u8, 's' as u8, 't' as u8];
    let creator: [u8; 7] = ['c' as u8, 'r' as u8, 'e' as u8, 'a' as u8, 't' as u8, 'o' as u8, 'r' as u8];
    let connector: [u8; 9] = ['c' as u8, 'o' as u8, 'n' as u8, 'n' as u8, 'e' as u8, 'c' as u8, 't' as u8, 'o' as u8, 'r' as u8];
    proof {
        assert(builder@ =~= builder_label());
        assert(designer@ =~= designer_label());
        assert(hacker@ =~= hacker_label());
        assert(mentor@ =~= mentor_label());
        assert(explorer@ =~= explorer_label());
        assert(analyst@ =~= analyst_label());
        assert(creator@ =~= creator_label());
        assert(connector@ =~= connector_label());
    }
    if bytes_match(&l, &builder) {
        ArchetypeClass::Builder
    } else if bytes_match(&l, &designer) {
        ArchetypeClass::Designer
    } else if bytes_match(&l, &hacker) {
        ArchetypeClass::Hacker
    } else if bytes_match(&l, &mentor) {
        ArchetypeClass::Mentor
    } else if bytes_match(&l, &explorer) {
        ArchetypeClass::Explorer
    } else if bytes_match(&l, &analyst) {
        ArchetypeClass::Analyst
    } else if bytes_match(&l, &creator) {
        ArchetypeClass::Creator
    } else if bytes_match(&l, &connector) {
        ArchetypeClass::Connector
    } else {
        ArchetypeClass::Other
    }
}

/// Do two archetype labels form one of the four complementary pairs,
/// ignoring ASCII case and order?
pub fn are_complementary(a: &Vec<u8>, b: &Vec<u8>) -> (r: bool)
    ensures
        r == complementary(a@, b@),
{
    let ca = classify(a);
    let cb = classify(b);
    let forward = (matches!(ca, ArchetypeClass::Builder) && matches!(cb, ArchetypeClass::Designer))
        || (matches!(ca, ArchetypeClass::Hacker) && matches!(cb, ArchetypeClass::Mentor))
        || (matches!(ca, ArchetypeClass::Explorer) && matches!(cb, ArchetypeClass::Analyst))
        || (matches!(ca, ArchetypeClass::Creator) && matches!(cb, ArchetypeClass::Connector));
    let backward = (matches!(cb, ArchetypeClass::Builder) && matches!(ca, ArchetypeClass::Designer))
        || (matches!(cb, ArchetypeClass::Hacker) && matches!(ca, ArchetypeClass::Mentor))
        || (matches!(cb, ArchetypeClass::Explorer) && matches!(ca, ArchetypeClass::Analyst))
        || (matches!(cb, ArchetypeClass::Creator) && matches!(ca, ArchetypeClass::Connector));
    forward || backward
}

} // verus!
