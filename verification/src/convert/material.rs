//! The material file: five entries, each a little-endian `u16` flag (1 when
//! the entry is set) followed by a little-endian `u32` value: the real
//! ambient color (always set, its low byte the alpha), the ambient, diffuse
//! and specular colors, and the specular coefficient's bit pattern.
use vstd::prelude::*;
use crate::convert::bytes::{le16, le32, push_u16_le, push_u32_le};

verus! {

/// A color word: red, green and blue in the upper three bytes, `0xff` below.
pub open spec fn color_value(r: u8, g: u8, b: u8) -> int {
    r * 0x100_0000 + g * 0x1_0000 + b * 0x100 + 0xff
}

/// Packs a color whose channels were already scaled to `0..=255`.
pub fn color_word(r: u8, g: u8, b: u8) -> (w: u32)
    ensures
        w == color_value(r, g, b),
{
    (r as u32) * 0x100_0000 + (g as u32) * 0x1_0000 + (b as u32) * 0x100 + 0xff
}

/// The real ambient color: white, with `alpha` as its low byte.
pub fn real_ambient(alpha: u8) -> (w: u32)
    ensures
        w == 0xffff_ff00 + alpha,
{
    0xffff_ff00u32 + alpha as u32
}

/// What a material file records.
#[derive(Clone, Copy, Debug, PartialEq, Eq, Structural)]
pub struct Material {
    pub ambient: Option<u32>,
    pub diffuse: Option<u32>,
    pub specular: Option<u32>,
    /// The specular coefficient's bit pattern.
    pub specular_coeff: Option<u32>,
    /// The alpha, scaled to `0..=255`.
    pub alpha: u8,
}

/// One entry: its flag, then its value (0 when unset).
pub open spec fn entry_bytes(value: Option<u32>) -> Seq<u8> {
    match value {
        Some(v) => le16(1) + le32(v),
        None => le16(0) + le32(0),
    }
}

/// The material file of `m`.
pub open spec fn material_bytes(m: Material) -> Seq<u8> {
    entry_bytes(Some((0xffff_ff00 + m.alpha) as u32)) + entry_bytes(m.ambient) + entry_bytes(m.diffuse)
        + entry_bytes(m.specular) + entry_bytes(m.specular_coeff)
}

fn push_entry(out: &mut Vec<u8>, value: Option<u32>)
    ensures
        final(out)@ == old(out)@ + entry_bytes(value),
{
    let ghost start = out@;
    match value {
        Some(v) => {
            push_u16_le(out, 1);
            push_u32_le(out, v);
        },
        None => {
            push_u16_le(out, 0);
            push_u32_le(out, 0);
        },
    }
    proof {
        assert(final(out)@ =~= start + entry_bytes(value));
    }
}

/// Writes the material file of `m`.
pub fn material_file(m: &Material) -> (f: Vec<u8>)
    ensures
        f@ == material_bytes(*m),
{
    let mut out: Vec<u8> = Vec::new();
    push_entry(&mut out, Some(real_ambient(m.alpha)));
    push_entry(&mut out, m.ambient);
    push_entry(&mut out, m.diffuse);
    push_entry(&mut out, m.specular);
    push_entry(&mut out, m.specular_coeff);
    proof {
        assert(out@ =~= material_bytes(*m));
    }
    out
}

/// The statements of a material description that the file records.
#[derive(Clone, Copy, Debug, PartialEq, Eq, Structural)]
pub enum MaterialKey {
    /// `Ka`: the ambient color.
    Ambient,
    /// `Kd`: the diffuse color.
    Diffuse,
    /// `Ks`: the specular color.
    Specular,
    /// `Ns`: the specular coefficient.
    SpecularCoeff,
    /// `d`: the alpha.
    Dissolve,
    /// `Tr`: one minus the alpha.
    Transparency,
}

/// The statement that a line's first word names, if any.
pub open spec fn key_of(word: Seq<u8>) -> Option<MaterialKey> {
    if word =~= seq![0x4bu8, 0x61u8] {
        Some(MaterialKey::Ambient)
    } else if word =~= seq![0x4bu8, 0x64u8] {
        Some(MaterialKey::Diffuse)
    } else if word =~= seq![0x4bu8, 0x73u8] {
        Some(MaterialKey::Specular)
    } else if word =~= seq![0x4eu8, 0x73u8] {
        Some(MaterialKey::SpecularCoeff)
    } else if word =~= seq![0x64u8] {
        Some(MaterialKey::Dissolve)
    } else if word =~= seq![0x54u8, 0x72u8] {
        Some(MaterialKey::Transparency)
    } else {
        None
    }
}

/// Recognizes a line's first word (its ASCII bytes): `Ka`, `Kd`, `Ks`,
/// `Ns`, `d` or `Tr`.
pub fn material_key(word: &[u8]) -> (k: Option<MaterialKey>)
    ensures
        k == key_of(word@),
{
    if word.len() == 1 {
        if word[0] == 0x64 {
            return Some(MaterialKey::Dissolve);
        }
        return None;
    }
    if word.len() != 2 {
        return None;
    }
    let (a, b) = (word[0], word[1]);
    proof {
        assert(word@ =~= seq![a, b]);
    }
    if a == 0x4b && b == 0x61 {
        Some(MaterialKey::Ambient)
    } else if a == 0x4b && b == 0x64 {
        Some(MaterialKey::Diffuse)
    } else if a == 0x4b && b == 0x73 {
        Some(MaterialKey::Specular)
    } else if a == 0x4e && b == 0x73 {
        Some(MaterialKey::SpecularCoeff)
    } else if a == 0x54 && b == 0x72 {
        Some(MaterialKey::Transparency)
    } else {
        proof {
            assert(!(word@ =~= seq![0x64u8]));
        }
        None
    }
}

/// An ASCII whitespace byte: space, tab, line feed, vertical tab, form feed
/// or carriage return.
pub open spec fn is_space(b: u8) -> bool {
    b == 0x20 || b == 0x09 || b == 0x0a || b == 0x0b || b == 0x0c || b == 0x0d
}

/// `s` without its leading whitespace.
pub open spec fn trim_start(s: Seq<u8>) -> Seq<u8>
    decreases s.len(),
{
    if s.len() > 0 && is_space(s[0]) {
        trim_start(s.skip(1))
    } else {
        s
    }
}

/// `s` without its trailing whitespace.
pub open spec fn trim_end(s: Seq<u8>) -> Seq<u8>
    decreases s.len(),
{
    if s.len() > 0 && is_space(s.last()) {
        trim_end(s.drop_last())
    } else {
        s
    }
}

/// `s` without its leading and trailing whitespace.
pub open spec fn trimmed(s: Seq<u8>) -> Seq<u8> {
    trim_end(trim_start(s))
}

/// The fields of `s` from index `i` on, the field in progress being `cur`:
/// every single space ends a field, so two spaces in a row give an empty
/// field.
pub open spec fn fields_from(s: Seq<u8>, i: int, cur: Seq<u8>) -> Seq<Seq<u8>>
    decreases s.len() - i,
{
    if i < 0 || i >= s.len() {
        seq![cur]
    } else if s[i] == 0x20 {
        seq![cur] + fields_from(s, i + 1, Seq::empty())
    } else {
        fields_from(s, i + 1, cur.push(s[i]))
    }
}

/// The fields of `s`, split at every space.
pub open spec fn fields(s: Seq<u8>) -> Seq<Seq<u8>> {
    fields_from(s, 0, Seq::empty())
}

/// The contents of byte buffers.
pub open spec fn contents(v: Seq<Vec<u8>>) -> Seq<Seq<u8>> {
    v.map_values(|b: Vec<u8>| b@)
}

proof fn lemma_fields_nonempty(s: Seq<u8>, i: int, cur: Seq<u8>)
    requires
        0 <= i,
    ensures
        fields_from(s, i, cur).len() >= 1,
    decreases s.len() - i,
{
    if i < s.len() {
        if s[i] == 0x20 {
            lemma_fields_nonempty(s, i + 1, Seq::empty());
        } else {
            lemma_fields_nonempty(s, i + 1, cur.push(s[i]));
        }
    }
}

fn space(b: u8) -> (r: bool)
    ensures
        r == is_space(b),
{
    b == 0x20 || b == 0x09 || b == 0x0a || b == 0x0b || b == 0x0c || b == 0x0d
}

/// `line` without its leading and trailing ASCII whitespace.
pub fn trim_ascii(line: &[u8]) -> (t: Vec<u8>)
    ensures
        t@ == trimmed(line@),
{
    let n = line.len();
    let mut i: usize = 0;
    proof {
        assert(line@.skip(0) =~= line@);
    }
    while i < n && space(line[i])
        invariant
            i <= n,
            n == line@.len(),
            trim_start(line@) == trim_start(line@.skip(i as int)),
        decreases n - i,
    {
        proof {
            assert(line@.skip(i as int).skip(1) =~= line@.skip(i + 1));
        }
        i += 1;
    }
    proof {
        if i == n {
            assert(line@.skip(i as int) =~= Seq::<u8>::empty());
        }
        assert(trim_start(line@) == line@.subrange(i as int, n as int));
    }
    let mut j: usize = n;
    while j > i && space(line[j - 1])
        invariant
            i <= j <= n,
            n == line@.len(),
            trim_start(line@) == line@.subrange(i as int, n as int),
            trimmed(line@) == trim_end(line@.subrange(i as int, j as int)),
        decreases j - i,
    {
        proof {
            assert(line@.subrange(i as int, j as int).drop_last() =~= line@.subrange(i as int, j - 1));
        }
        j -= 1;
    }
    let mut t: Vec<u8> = Vec::new();
    let mut k: usize = i;
    while k < j
        invariant
            i <= k <= j <= n,
            n == line@.len(),
            t@ == line@.subrange(i as int, k as int),
        decreases j - k,
    {
        t.push(line[k]);
        k += 1;
        proof {
            assert(t@ =~= line@.subrange(i as int, k as int));
        }
    }
    t
}

/// The fields of `s`, split at every space.
pub fn split_fields(s: &[u8]) -> (r: Vec<Vec<u8>>)
    ensures
        contents(r@) == fields(s@),
{
    let mut out: Vec<Vec<u8>> = Vec::new();
    let mut cur: Vec<u8> = Vec::new();
    let mut i: usize = 0;
    while i < s.len()
        invariant
            i <= s@.len(),
            contents(out@) + fields_from(s@, i as int, cur@) == fields(s@),
        decreases s@.len() - i,
    {
        let ghost before = contents(out@);
        if s[i] == 0x20 {
            let done = cur;
            cur = Vec::new();
            proof {
                assert(contents(out@.push(done)) =~= before.push(done@));
            }
            out.push(done);
            proof {
                assert(contents(out@) + fields_from(s@, i + 1, cur@) =~= before + fields_from(s@, i as int, done@));
            }
        } else {
            cur.push(s[i]);
        }
        i += 1;
    }
    let ghost before = contents(out@);
    let last = cur;
    proof {
        assert(contents(out@.push(last)) =~= before.push(last@));
    }
    out.push(last);
    proof {
        assert(contents(out@) =~= before + fields_from(s@, i as int, last@));
    }
    out
}

/// A line of a material description: its statement and its fields (the
/// statement's word first), once the line is trimmed of whitespace and split
/// at every space; `None` for a blank line or a statement the file does not
/// record.
pub fn material_statement(line: &[u8]) -> (r: Option<(MaterialKey, Vec<Vec<u8>>)>)
    ensures
        trimmed(line@).len() == 0 ==> r is None,
        trimmed(line@).len() > 0 ==> match key_of(fields(trimmed(line@))[0]) {
            None => r is None,
            Some(k) => r matches Some((k2, parts)) && k2 == k && contents(parts@) == fields(trimmed(line@)),
        },
{
    let t = trim_ascii(line);
    if t.len() == 0 {
        return None;
    }
    let parts = split_fields(t.as_slice());
    proof {
        lemma_fields_nonempty(t@, 0, Seq::empty());
        assert(contents(parts@).len() == parts@.len());
        assert(contents(parts@)[0] == parts@[0]@);
    }
    match material_key(parts[0].as_slice()) {
        Some(k) => Some((k, parts)),
        None => None,
    }
}

} // verus!
