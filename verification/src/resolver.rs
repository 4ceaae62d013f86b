use vstd::prelude::*;
use vstd::string::StrSliceExecFns;

verus! {

/// The UTF-16 code units encoding one character: a single unit for a
/// character below 0x10000, a surrogate pair for anything above.
pub open spec fn utf16_units_of(c: char) -> Seq<u16> {
    let u = c as u32;
    if u < 0x10000 {
        seq![u as u16]
    } else {
        seq![
            (0xD800 + (u - 0x10000) / 0x400) as u16,
            (0xDC00 + (u - 0x10000) % 0x400) as u16,
        ]
    }
}

/// The UTF-16 code units encoding a character sequence.
pub open spec fn utf16_of(s: Seq<char>) -> Seq<u16>
    decreases s.len(),
{
    if s.len() == 0 {
        Seq::empty()
    } else {
        utf16_units_of(s[0]) + utf16_of(s.skip(1))
    }
}

proof fn lemma_utf16_of_push(s: Seq<char>, c: char)
    ensures
        utf16_of(s.push(c)) == utf16_of(s) + utf16_units_of(c),
    decreases s.len(),
{
    if s.len() == 0 {
        assert(s.push(c)[0] == c);
        assert(s.push(c).skip(1) =~= Seq::<char>::empty());
        assert(utf16_of(s.push(c).skip(1)) == Seq::<u16>::empty());
        assert(utf16_of(s.push(c)) == utf16_units_of(c) + Seq::<u16>::empty());
        assert(utf16_of(s) == Seq::<u16>::empty());
        assert(utf16_of(s.push(c)) =~= utf16_of(s) + utf16_units_of(c));
    } else {
        lemma_utf16_of_push(s.skip(1), c);
        assert(s.push(c)[0] == s[0]);
        assert(s.push(c).skip(1) =~= s.skip(1).push(c));
        assert(utf16_of(s.push(c)) == utf16_units_of(s[0]) + (utf16_of(s.skip(1))
            + utf16_units_of(c)));
        assert(utf16_of(s.push(c)) =~= utf16_of(s) + utf16_units_of(c));
    }
}

/// Appends the UTF-16 code units of one character.
fn push_utf16_units(out: &mut Vec<u16>, c: char)
    ensures
        final(out)@ == old(out)@ + utf16_units_of(c),
{
    proof {
        vstd::utf8::char_is_scalar(c);
    }
    let u = c as u32;
    if u < 0x10000 {
        out.push(u as u16);
    } else {
        let v = u - 0x10000;
        out.push((0xD800 + v / 0x400) as u16);
        out.push((0xDC00 + v % 0x400) as u16);
    }
    proof {
        assert(final(out)@ =~= old(out)@ + utf16_units_of(c));
    }
}

/// A module name in the form the loader's lookup expects: the UTF-16 code
/// units of the name, terminated by a single zero unit.
pub fn wide_string(name: &str) -> (r: Vec<u16>)
    ensures
        r@ == utf16_of(name@).push(0u16),
{
    let len = name.unicode_len();
    let mut out: Vec<u16> = Vec::new();
    let mut i: usize = 0;
    while i < len
        invariant
            i <= len,
            len == name@.len(),
            out@ == utf16_of(name@.take(i as int)),
        decreases len - i,
    {
        let c = name.get_char(i);
        push_utf16_units(&mut out, c);
        proof {
            lemma_utf16_of_push(name@.take(i as int), c);
            assert(name@.take(i + 1 as int) =~= name@.take(i as int).push(c));
        }
        i += 1;
    }
    proof {
        assert(name@.take(len as int) =~= name@);
    }
    out.push(0);
    out
}

/// A symbol name in the form the loader's lookup expects: the name's bytes,
/// terminated by a single zero byte. A name already containing a zero byte
/// has no such form and is rejected.
pub fn c_string_bytes(name: &Vec<u8>) -> (r: Option<Vec<u8>>)
    ensures
        r is Some <==> !name@.contains(0u8),
        r matches Some(b) ==> b@ == name@.push(0u8),
{
    let mut out: Vec<u8> = Vec::new();
    let mut i: usize = 0;
    while i < name.len()
        invariant
            i <= name@.len(),
            out@ == name@.take(i as int),
            forall|j: int| 0 <= j < i ==> name@[j] != 0u8,
        decreases name@.len() - i,
    {
        if name[i] == 0 {
            proof {
                assert(name@[i as int] == 0u8);
            }
            return None;
        }
        out.push(name[i]);
        proof {
            assert(name@.take(i + 1 as int) =~= name@.take(i as int).push(name@[i as int]));
        }
        i += 1;
    }
    proof {
        assert(name@.take(name@.len() as int) =~= name@);
        assert(!name@.contains(0u8));
    }
    out.push(0);
    Some(out)
}

/// The lookup's raw answer mapped to an address: the loader reports a missing
/// module or a symbol that is not exported as the address zero, which is
/// never a valid function address.
pub fn symbol_address(raw: usize) -> (r: Option<usize>)
    ensures
        r == if raw == 0 {
            Option::<usize>::None
        } else {
            Option::Some(raw)
        },
{
    if raw == 0 {
        None
    } else {
        Some(raw)
    }
}

} // verus!
