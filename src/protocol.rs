use vstd::prelude::*;

verus! {

/// The ASCII decimal digits of `n`, most significant first, without leading zeros.
pub open spec fn decimal(n: nat) -> Seq<u8>
    decreases n,
{
    if n < 10 {
        seq![(48 + n) as u8]
    } else {
        decimal(n / 10).push((48 + n % 10) as u8)
    }
}

/// The graphics command that shows the raw RGBA file whose path is `payload` (already
/// base64) as a `width` by `height` image:
/// `ESC _G f=32,s=<width>,v=<height>,a=T,t=t;<payload> ESC \`.
pub open spec fn graphics_command(width: nat, height: nat, payload: Seq<u8>) -> Seq<u8> {
    seq![0x1bu8, 0x5fu8] + "Gf=32,s="@.map_values(|c: char| c as u8) + decimal(width)
        + ",v="@.map_values(|c: char| c as u8) + decimal(height)
        + ",a=T,t=t;"@.map_values(|c: char| c as u8) + payload + seq![0x1bu8, 0x5cu8]
}

/// The standard base64 encoding, with padding, of `bytes`.
pub uninterp spec fn base64_of(bytes: Seq<u8>) -> Seq<u8>;

/// Relies on base64::encode (standard alphabet, padded): four output bytes for each
/// started group of three input bytes.
#[verifier::external_body]
fn encode_base64(bytes: &[u8]) -> (r: Vec<u8>)
    requires
        bytes@.len() <= usize::MAX / 2,
    ensures
        r@ == base64_of(bytes@),
        r@.len() == 4 * ((bytes@.len() + 2) / 3),
{
    base64::encode(bytes).into_bytes()
}

/// Appends the decimal digits of `n` to `out`.
pub fn push_decimal(out: &mut Vec<u8>, n: u32)
    ensures
        final(out)@ == old(out)@ + decimal(n as nat),
    decreases n,
{
    if n >= 10 {
        push_decimal(out, n / 10);
    }
    out.push(48u8 + (n % 10) as u8);
    proof {
        if n >= 10 {
            assert(old(out)@ + decimal(n as nat) =~= old(out)@ + decimal((n / 10) as nat) + seq![
                (48 + n % 10) as u8,
            ]);
        }
    }
}

fn push_all(out: &mut Vec<u8>, bytes: &[u8])
    ensures
        final(out)@ == old(out)@ + bytes@,
{
    let mut i: usize = 0;
    while i < bytes.len()
        invariant
            i <= bytes@.len(),
            out@ == old(out)@ + bytes@.subrange(0, i as int),
        decreases bytes@.len() - i,
    {
        out.push(bytes[i]);
        i += 1;
        assert(out@ =~= old(out)@ + bytes@.subrange(0, i as int));
    }
    assert(bytes@.subrange(0, i as int) =~= bytes@);
}

/// The graphics command for a `width` by `height` image whose file path, base64-encoded,
/// is `payload`.
pub fn frame_command(width: u32, height: u32, payload: &[u8]) -> (r: Vec<u8>)
    ensures
        r@ == graphics_command(width as nat, height as nat, payload@),
{
    let mut out: Vec<u8> = Vec::new();
    push_all(&mut out, &[0x1bu8, 0x5fu8, 0x47u8, 0x66u8, 0x3du8, 0x33u8, 0x32u8, 0x2cu8, 0x73u8, 0x3du8]);
    push_decimal(&mut out, width);
    push_all(&mut out, &[0x2cu8, 0x76u8, 0x3du8]);
    push_decimal(&mut out, height);
    push_all(&mut out, &[0x2cu8, 0x61u8, 0x3du8, 0x54u8, 0x2cu8, 0x74u8, 0x3du8, 0x74u8, 0x3bu8]);
    push_all(&mut out, payload);
    push_all(&mut out, &[0x1bu8, 0x5cu8]);
    proof {
        reveal_strlit("Gf=32,s=");
        reveal_strlit(",v=");
        reveal_strlit(",a=T,t=t;");
        assert(out@ =~= graphics_command(width as nat, height as nat, payload@));
    }
    out
}

/// The graphics command that shows the raw RGBA file at `path` as a `width` by `height`
/// image; the path travels base64-encoded.
pub fn graphics_command_for_path(width: u32, height: u32, path: &[u8]) -> (r: Vec<u8>)
    requires
        path@.len() <= usize::MAX / 2,
    ensures
        r@ == graphics_command(width as nat, height as nat, base64_of(path@)),
{
    let payload = encode_base64(path);
    frame_command(width, height, payload.as_slice())
}

} // verus!
