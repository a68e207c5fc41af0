//! Identifiers and the naming scheme for generated items.
//!
//! An identifier is a sequence of ASCII bytes. The generated request and
//! response variant for a method is named by the PascalCase form of the
//! method's snake_case name; the generated companion types of a service are
//! named by appending a fixed suffix to the service name.

use vstd::prelude::*;

verus! {

/// Uppercases an ASCII lowercase letter; leaves every other byte unchanged.
pub open spec fn upper_byte(b: u8) -> u8 {
    if 97 <= b && b <= 122 {
        (b - 32) as u8
    } else {
        b
    }
}

/// Lowercases an ASCII uppercase letter; leaves every other byte unchanged.
pub open spec fn lower_byte(b: u8) -> u8 {
    if 65 <= b && b <= 90 {
        (b + 32) as u8
    } else {
        b
    }
}

/// The PascalCase conversion, carrying whether the next letter starts a word:
/// an underscore is dropped and starts a new word, the first byte of a word
/// is uppercased, every other byte is lowercased.
pub open spec fn camel_from(s: Seq<u8>, upper_next: bool) -> Seq<u8>
    decreases s.len(),
{
    if s.len() == 0 {
        Seq::empty()
    } else if s[0] == 95 {
        camel_from(s.skip(1), true)
    } else if upper_next {
        seq![upper_byte(s[0])] + camel_from(s.skip(1), false)
    } else {
        seq![lower_byte(s[0])] + camel_from(s.skip(1), false)
    }
}

/// The PascalCase form of a snake_case identifier.
pub open spec fn camel_of(s: Seq<u8>) -> Seq<u8> {
    camel_from(s, true)
}

/// Converts a snake_case method name into the PascalCase name of its
/// request and response variant.
pub fn snake_to_camel(ident_str: &[u8]) -> (camel_ty: Vec<u8>)
    ensures
        camel_ty@ == camel_of(ident_str@),
{
    let mut camel_ty: Vec<u8> = Vec::new();
    let mut last_char_was_underscore = true;
    let mut i: usize = 0;
    proof {
        assert(ident_str@.skip(0) =~= ident_str@);
        assert(camel_ty@ + camel_from(ident_str@, true) =~= camel_from(ident_str@, true));
    }
    while i < ident_str.len()
        invariant
            i <= ident_str@.len(),
            camel_of(ident_str@) == camel_ty@ + camel_from(
                ident_str@.skip(i as int),
                last_char_was_underscore,
            ),
        decreases ident_str@.len() - i,
    {
        let c = ident_str[i];
        proof {
            assert(ident_str@.skip(i as int)[0] == c);
            assert(ident_str@.skip(i as int).skip(1) =~= ident_str@.skip(i as int + 1));
        }
        let ghost prev = camel_ty@;
        if c == 95 {
            last_char_was_underscore = true;
        } else if last_char_was_underscore {
            let up = if 97 <= c && c <= 122 {
                c - 32
            } else {
                c
            };
            camel_ty.push(up);
            last_char_was_underscore = false;
            proof {
                assert(camel_ty@ =~= prev + seq![upper_byte(c)]);
            }
        } else {
            let low = if 65 <= c && c <= 90 {
                c + 32
            } else {
                c
            };
            camel_ty.push(low);
            proof {
                assert(camel_ty@ =~= prev + seq![lower_byte(c)]);
            }
        }
        i = i + 1;
    }
    proof {
        assert(ident_str@.skip(i as int) =~= Seq::<u8>::empty());
        assert(camel_of(ident_str@) =~= camel_ty@);
    }
    camel_ty
}

/// Compares two byte strings for equality of contents.
pub fn bytes_eq(a: &[u8], b: &[u8]) -> (r: bool)
    ensures
        r == (a@ == b@),
{
    if a.len() != b.len() {
        proof {
            assert(a@.len() != b@.len());
        }
        return false;
    }
    let mut i: usize = 0;
    while i < a.len()
        invariant
            a@.len() == b@.len(),
            i <= a@.len(),
            forall|k: int| 0 <= k < i ==> a@[k] == b@[k],
        decreases a@.len() - i,
    {
        if a[i] != b[i] {
            return false;
        }
        i = i + 1;
    }
    proof {
        assert(a@ =~= b@);
    }
    true
}

/// The views of a sequence of byte strings.
pub open spec fn byte_views(v: Seq<Vec<u8>>) -> Seq<Seq<u8>> {
    Seq::new(v.len(), |i: int| v[i]@)
}

/// True when `name` occurs in `set`, a list standing for a set of
/// identifiers.
pub fn contains_name(set: &Vec<Vec<u8>>, name: &[u8]) -> (r: bool)
    ensures
        r == byte_views(set@).contains(name@),
{
    let mut i: usize = 0;
    while i < set.len()
        invariant
            i <= set@.len(),
            forall|k: int| 0 <= k < i ==> byte_views(set@)[k] != name@,
        decreases set@.len() - i,
    {
        if bytes_eq(set[i].as_slice(), name) {
            proof {
                assert(byte_views(set@)[i as int] == name@);
            }
            return true;
        }
        i = i + 1;
    }
    false
}

/// Copies a byte string.
pub fn copy_bytes(v: &[u8]) -> (r: Vec<u8>)
    ensures
        r@ == v@,
{
    let mut r: Vec<u8> = Vec::new();
    let mut i: usize = 0;
    while i < v.len()
        invariant
            i <= v@.len(),
            r@ == v@.take(i as int),
        decreases v@.len() - i,
    {
        r.push(v[i]);
        proof {
            assert(r@ =~= v@.take(i as int + 1));
        }
        i = i + 1;
    }
    proof {
        assert(v@.take(v@.len() as int) =~= v@);
    }
    r
}

/// Appends `suffix` to a copy of `base`: the naming scheme for the generated
/// companion items of a service.
pub fn suffixed(base: &[u8], suffix: &[u8]) -> (r: Vec<u8>)
    ensures
        r@ == base@ + suffix@,
{
    let mut r: Vec<u8> = Vec::new();
    let mut i: usize = 0;
    while i < base.len()
        invariant
            i <= base@.len(),
            r@ == base@.take(i as int),
        decreases base@.len() - i,
    {
        r.push(base[i]);
        proof {
            assert(r@ =~= base@.take(i as int + 1));
        }
        i = i + 1;
    }
    let mut j: usize = 0;
    while j < suffix.len()
        invariant
            j <= suffix@.len(),
            r@ == base@ + suffix@.take(j as int),
        decreases suffix@.len() - j,
    {
        r.push(suffix[j]);
        proof {
            assert(r@ =~= base@ + suffix@.take(j as int + 1));
        }
        j = j + 1;
    }
    proof {
        assert(base@.take(base@.len() as int) =~= base@);
        assert(suffix@.take(suffix@.len() as int) =~= suffix@);
        assert(r@ =~= base@ + suffix@);
    }
    r
}

} // verus!
