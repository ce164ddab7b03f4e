//! Base64 text of bytes (RFC 4648, standard alphabet, with `=` padding).

use vstd::prelude::*;

verus! {

/// The 64 characters of the standard Base64 alphabet, in value order.
pub open spec fn base64_alphabet() -> Seq<char> {
    "ABCDEFGHIJKLMNOPQRSTUVWXYZabcdefghijklmnopqrstuvwxyz0123456789+/"@
}

/// The Base64 text of bytes: each group of three bytes gives four
/// characters of six bits each; a final group of one or two bytes is padded
/// with `=` to four characters.
pub open spec fn base64_of(bytes: Seq<u8>) -> Seq<char>
    decreases bytes.len(),
{
    let a = base64_alphabet();
    if bytes.len() == 0 {
        Seq::empty()
    } else {
        let b0 = bytes[0] as int;
        let b1 = if bytes.len() > 1 { bytes[1] as int } else { 0 };
        let b2 = if bytes.len() > 2 { bytes[2] as int } else { 0 };
        if bytes.len() == 1 {
            seq![a[b0 / 4], a[(b0 % 4) * 16], '=', '=']
        } else if bytes.len() == 2 {
            seq![a[b0 / 4], a[(b0 % 4) * 16 + b1 / 16], a[(b1 % 16) * 4], '=']
        } else {
            seq![a[b0 / 4], a[(b0 % 4) * 16 + b1 / 16], a[(b1 % 16) * 4 + b2 / 64], a[b2 % 64]]
                + base64_of(bytes.skip(3))
        }
    }
}

/// The one-character string of the alphabet's character of value `v`.
fn alphabet_char(v: u32) -> (r: &'static str)
    requires
        v < 64,
    ensures
        r@ == seq![base64_alphabet()[v as int]],
{
    let alphabet = "ABCDEFGHIJKLMNOPQRSTUVWXYZabcdefghijklmnopqrstuvwxyz0123456789+/";
    proof {
        reveal_strlit("ABCDEFGHIJKLMNOPQRSTUVWXYZabcdefghijklmnopqrstuvwxyz0123456789+/");
    }
    let r = alphabet.substring_char(v as usize, (v + 1) as usize);
    assert(r@ =~= seq![base64_alphabet()[v as int]]);
    r
}

/// The Base64 text of bytes.
pub fn base64_encode(bytes: &[u8]) -> (r: String)
    ensures
        r@ == base64_of(bytes@),
{
    let n = bytes.len();
    let mut out = String::new();
    let mut i: usize = 0;
    assert(bytes@.skip(0) =~= bytes@);
    while 3 <= n - i
        invariant
            n == bytes@.len(),
            i <= n,
            out@ + base64_of(bytes@.skip(i as int)) == base64_of(bytes@),
        decreases n - i,
    {
        let b0 = bytes[i] as u32;
        let b1 = bytes[i + 1] as u32;
        let b2 = bytes[i + 2] as u32;
        let ghost rest = bytes@.skip(i as int);
        assert(rest[0] == bytes@[i as int] && rest[1] == bytes@[i + 1] && rest[2] == bytes@[i + 2]);
        assert(rest.skip(3) =~= bytes@.skip(i + 3));
        let ghost before = out@;
        out.append(alphabet_char(b0 / 4));
        out.append(alphabet_char((b0 % 4) * 16 + b1 / 16));
        out.append(alphabet_char((b1 % 16) * 4 + b2 / 64));
        out.append(alphabet_char(b2 % 64));
        let ghost group = seq![
            base64_alphabet()[(b0 / 4) as int],
            base64_alphabet()[((b0 % 4) * 16 + b1 / 16) as int],
            base64_alphabet()[((b1 % 16) * 4 + b2 / 64) as int],
            base64_alphabet()[(b2 % 64) as int]
        ];
        assert(out@ =~= before + group);
        assert(base64_of(rest) == group + base64_of(rest.skip(3)));
        assert(before + group + base64_of(bytes@.skip(i + 3)) =~= before + (group + base64_of(rest.skip(3))));
        i = i + 3;
    }
    let ghost rest = bytes@.skip(i as int);
    let ghost before = out@;
    if n - i == 1 {
        let b0 = bytes[i] as u32;
        assert(rest[0] == bytes@[i as int]);
        out.append(alphabet_char(b0 / 4));
        out.append(alphabet_char((b0 % 4) * 16));
        out.append("==");
        proof {
            reveal_strlit("==");
        }
        assert(out@ =~= before + base64_of(rest));
    } else if n - i == 2 {
        let b0 = bytes[i] as u32;
        let b1 = bytes[i + 1] as u32;
        assert(rest[0] == bytes@[i as int] && rest[1] == bytes@[i + 1]);
        out.append(alphabet_char(b0 / 4));
        out.append(alphabet_char((b0 % 4) * 16 + b1 / 16));
        out.append(alphabet_char((b1 % 16) * 4));
        out.append("=");
        proof {
            reveal_strlit("=");
        }
        assert(out@ =~= before + base64_of(rest));
    } else {
        assert(rest.len() == 0);
        assert(out@ =~= before + base64_of(rest));
    }
    out
}

} // verus!
