//! Mu-law and PCM16 sample conversion and 2:1 resampling, the audio
//! pipeline between telephone-grade 8 kHz mu-law and 16 kHz linear PCM.

use vstd::prelude::*;

verus! {

/// Decoded value of every mu-law code point, indexed by the code byte.
const MULAW_TO_PCM: [i16; 256] = [
    -32124, -31100, -30076, -29052, -28028, -27004, -25980, -24956, -23932, -22908, -21884, -20860,
    -19836, -18812, -17788, -16764, -15996, -15484, -14972, -14460, -13948, -13436, -12924, -12412,
    -11900, -11388, -10876, -10364, -9852, -9340, -8828, -8316, -7932, -7676, -7420, -7164,
    -6908, -6652, -6396, -6140, -5884, -5628, -5372, -5116, -4860, -4604, -4348, -4092,
    -3900, -3772, -3644, -3516, -3388, -3260, -3132, -3004, -2876, -2748, -2620, -2492,
    -2364, -2236, -2108, -1980, -1884, -1820, -1756, -1692, -1628, -1564, -1500, -1436,
    -1372, -1308, -1244, -1180, -1116, -1052, -988, -924, -876, -844, -812, -780,
    -748, -716, -684, -652, -620, -588, -556, -524, -492, -460, -428, -396,
    -372, -356, -340, -324, -308, -292, -276, -260, -244, -228, -212, -196,
    -180, -164, -148, -132, -120, -112, -104, -96, -88, -80, -72, -64,
    -56, -48, -40, -32, -24, -16, -8, 0, 32124, 31100, 30076, 29052,
    28028, 27004, 25980, 24956, 23932, 22908, 21884, 20860, 19836, 18812, 17788, 16764,
    15996, 15484, 14972, 14460, 13948, 13436, 12924, 12412, 11900, 11388, 10876, 10364,
    9852, 9340, 8828, 8316, 7932, 7676, 7420, 7164, 6908, 6652, 6396, 6140,
    5884, 5628, 5372, 5116, 4860, 4604, 4348, 4092, 3900, 3772, 3644, 3516,
    3388, 3260, 3132, 3004, 2876, 2748, 2620, 2492, 2364, 2236, 2108, 1980,
    1884, 1820, 1756, 1692, 1628, 1564, 1500, 1436, 1372, 1308, 1244, 1180,
    1116, 1052, 988, 924, 876, 844, 812, 780, 748, 716, 684, 652,
    620, 588, 556, 524, 492, 460, 428, 396, 372, 356, 340, 324,
    308, 292, 276, 260, 244, 228, 212, 196, 180, 164, 148, 132,
    120, 112, 104, 96, 88, 80, 72, 64, 56, 48, 40, 32,
    24, 16, 8, 0,
];

/// Magnitudes above this are clipped before encoding.
pub const MULAW_CLIP: i16 = 32635;

/// Bias added to a clipped magnitude before its segment is found.
pub const MULAW_BIAS: i16 = 0x84;

/// `2^e` for the segment numbers `0..=7` of the mu-law format.
pub open spec fn pow2_small(e: int) -> int {
    if e <= 0 {
        1
    } else if e == 1 {
        2
    } else if e == 2 {
        4
    } else if e == 3 {
        8
    } else if e == 4 {
        16
    } else if e == 5 {
        32
    } else if e == 6 {
        64
    } else {
        128
    }
}

/// Segment (exponent) of a biased magnitude: the index of its highest set
/// bit among bits 7 to 14, less seven, and 0 when none of them is set.
pub open spec fn mulaw_segment(biased: int) -> int {
    if biased >= 0x4000 {
        7
    } else if biased >= 0x2000 {
        6
    } else if biased >= 0x1000 {
        5
    } else if biased >= 0x800 {
        4
    } else if biased >= 0x400 {
        3
    } else if biased >= 0x200 {
        2
    } else if biased >= 0x100 {
        1
    } else {
        0
    }
}

/// Clipped magnitude that the encoder quantises: the absolute value of the
/// sample, at most `MULAW_CLIP` (so `i16::MIN` clips like `-i16::MAX`).
pub open spec fn mulaw_magnitude(pcm: i16) -> int {
    let absolute: int = if pcm < 0 { -(pcm as int) } else { pcm as int };
    if absolute > MULAW_CLIP { MULAW_CLIP as int } else { absolute }
}

/// The mu-law code of a PCM16 sample: sign bit, three segment bits and four
/// mantissa bits of the biased magnitude, all inverted.
pub open spec fn encode_mulaw_spec(pcm: i16) -> u8 {
    let biased = mulaw_magnitude(pcm) + MULAW_BIAS;
    let segment = mulaw_segment(biased);
    let mantissa = (biased / (8 * pow2_small(segment))) % 16;
    let sign: int = if pcm < 0 { 0x80 } else { 0 };
    (255 - (sign + 16 * segment + mantissa)) as u8
}

/// The PCM16 value of a mu-law code: `(8 * mantissa + 0x84) * 2^segment - 0x84`,
/// negated when the (inverted) sign bit is set.
pub open spec fn decode_mulaw_spec(code: u8) -> i16 {
    let c = 255 - code;
    let segment = (c % 128) / 16;
    let mantissa = c % 16;
    let magnitude = (8 * mantissa + MULAW_BIAS) * pow2_small(segment) - MULAW_BIAS;
    if c >= 128 { (-magnitude) as i16 } else { magnitude as i16 }
}

/// Rust's `/ 2` on a signed sample: division truncated towards zero.
pub open spec fn half_toward_zero(v: i16) -> int {
    if v >= 0 { v / 2 } else { -((-v) / 2) }
}

/// The 8 kHz to 16 kHz upsampling: every input sample is followed by the sum
/// of its half and the next sample's half, and the last sample is repeated.
pub open spec fn upsample_spec(x: Seq<i16>) -> Seq<i16> {
    Seq::new(
        (2 * x.len()) as nat,
        |j: int|
            if j % 2 == 0 || j / 2 + 1 == x.len() {
                x[j / 2]
            } else {
                (half_toward_zero(x[j / 2]) + half_toward_zero(x[j / 2 + 1])) as i16
            },
    )
}

/// The 16 kHz to 8 kHz decimation: the samples at even positions.
pub open spec fn downsample_spec(x: Seq<i16>) -> Seq<i16> {
    Seq::new((x.len() / 2 + x.len() % 2) as nat, |j: int| x[2 * j])
}

#[verifier::rlimit(60)]
proof fn lemma_mulaw_table(code: u8)
    ensures
        MULAW_TO_PCM@[code as int] == decode_mulaw_spec(code),
{
    assert(code == 0 || code == 1 || code == 2 || code == 3 || code == 4 || code == 5 || code == 6 || code == 7 || code == 8 || code == 9 || code == 10 || code == 11 || code == 12 || code == 13 || code == 14 || code == 15 || code == 16 || code == 17 || code == 18 || code == 19 || code == 20 || code == 21 || code == 22 || code == 23 || code == 24 || code == 25 || code == 26 || code == 27 || code == 28 || code == 29 || code == 30 || code == 31 || code == 32 || code == 33 || code == 34 || code == 35 || code == 36 || code == 37 || code == 38 || code == 39 || code == 40 || code == 41 || code == 42 || code == 43 || code == 44 || code == 45 || code == 46 || code == 47 || code == 48 || code == 49 || code == 50 || code == 51 || code == 52 || code == 53 || code == 54 || code == 55 || code == 56 || code == 57 || code == 58 || code == 59 || code == 60 || code == 61 || code == 62 || code == 63 || code == 64 || code == 65 || code == 66 || code == 67 || code == 68 || code == 69 || code == 70 || code == 71 || code == 72 || code == 73 || code == 74 || code == 75 || code == 76 || code == 77 || code == 78 || code == 79 || code == 80 || code == 81 || code == 82 || code == 83 || code == 84 || code == 85 || code == 86 || code == 87 || code == 88 || code == 89 || code == 90 || code == 91 || code == 92 || code == 93 || code == 94 || code == 95 || code == 96 || code == 97 || code == 98 || code == 99 || code == 100 || code == 101 || code == 102 || code == 103 || code == 104 || code == 105 || code == 106 || code == 107 || code == 108 || code == 109 || code == 110 || code == 111 || code == 112 || code == 113 || code == 114 || code == 115 || code == 116 || code == 117 || code == 118 || code == 119 || code == 120 || code == 121 || code == 122 || code == 123 || code == 124 || code == 125 || code == 126 || code == 127 || code == 128 || code == 129 || code == 130 || code == 131 || code == 132 || code == 133 || code == 134 || code == 135 || code == 136 || code == 137 || code == 138 || code == 139 || code == 140 || code == 141 || code == 142 || code == 143 || code == 144 || code == 145 || code == 146 || code == 147 || code == 148 || code == 149 || code == 150 || code == 151 || code == 152 || code == 153 || code == 154 || code == 155 || code == 156 || code == 157 || code == 158 || code == 159 || code == 160 || code == 161 || code == 162 || code == 163 || code == 164 || code == 165 || code == 166 || code == 167 || code == 168 || code == 169 || code == 170 || code == 171 || code == 172 || code == 173 || code == 174 || code == 175 || code == 176 || code == 177 || code == 178 || code == 179 || code == 180 || code == 181 || code == 182 || code == 183 || code == 184 || code == 185 || code == 186 || code == 187 || code == 188 || code == 189 || code == 190 || code == 191 || code == 192 || code == 193 || code == 194 || code == 195 || code == 196 || code == 197 || code == 198 || code == 199 || code == 200 || code == 201 || code == 202 || code == 203 || code == 204 || code == 205 || code == 206 || code == 207 || code == 208 || code == 209 || code == 210 || code == 211 || code == 212 || code == 213 || code == 214 || code == 215 || code == 216 || code == 217 || code == 218 || code == 219 || code == 220 || code == 221 || code == 222 || code == 223 || code == 224 || code == 225 || code == 226 || code == 227 || code == 228 || code == 229 || code == 230 || code == 231 || code == 232 || code == 233 || code == 234 || code == 235 || code == 236 || code == 237 || code == 238 || code == 239 || code == 240 || code == 241 || code == 242 || code == 243 || code == 244 || code == 245 || code == 246 || code == 247 || code == 248 || code == 249 || code == 250 || code == 251 || code == 252 || code == 253 || code == 254 || code == 255);
}

/// Convert mu-law bytes to PCM16 samples.
pub fn mulaw_to_pcm16(input: &[u8]) -> (out: Vec<i16>)
    ensures
        out@ == input@.map_values(|code: u8| decode_mulaw_spec(code)),
{
    let mut out: Vec<i16> = Vec::new();
    let mut i: usize = 0;
    while i < input.len()
        invariant
            i <= input.len(),
            out@ == input@.take(i as int).map_values(|code: u8| decode_mulaw_spec(code)),
        decreases input.len() - i,
    {
        let code = input[i];
        proof {
            lemma_mulaw_table(code);
        }
        out.push(MULAW_TO_PCM[code as usize]);
        assert(input@.take(i + 1) =~= input@.take(i as int).push(code));
        i = i + 1;
    }
    assert(input@.take(i as int) =~= input@);
    out
}

/// Threshold of segment `e`: the lowest biased magnitude that falls in it.
spec fn segment_mask(e: int) -> int {
    0x80 * pow2_small(e)
}

/// Convert PCM16 samples to mu-law bytes.
pub fn pcm16_to_mulaw(input: &[i16]) -> (out: Vec<u8>)
    ensures
        out@ == input@.map_values(|pcm: i16| encode_mulaw_spec(pcm)),
{
    let mut out: Vec<u8> = Vec::new();
    let mut i: usize = 0;
    while i < input.len()
        invariant
            i <= input.len(),
            out@ == input@.take(i as int).map_values(|pcm: i16| encode_mulaw_spec(pcm)),
        decreases input.len() - i,
    {
        let sample = input[i];
        out.push(encode_mulaw(sample));
        assert(input@.take(i + 1) =~= input@.take(i as int).push(sample));
        i = i + 1;
    }
    assert(input@.take(i as int) =~= input@);
    out
}

/// Encode a single PCM16 sample as mu-law.
fn encode_mulaw(pcm: i16) -> (code: u8)
    ensures
        code == encode_mulaw_spec(pcm),
{
    let original = pcm;
    let mut pcm = pcm;
    let sign: i16 = (pcm >> 8u32) & 0x80;
    assert(sign == if original < 0 { 0x80i16 } else { 0i16 }) by (bit_vector)
        requires
            sign == (original >> 8u32) & 0x80,
    ;
    if sign != 0 {
        // The most negative sample has no positive counterpart; its
        // magnitude saturates and is clipped below like any other.
        pcm = if pcm == i16::MIN { i16::MAX } else { -pcm };
    }
    if pcm > MULAW_CLIP {
        pcm = MULAW_CLIP;
    }
    assert(pcm == mulaw_magnitude(original));
    pcm = pcm + MULAW_BIAS;
    let ghost biased: int = mulaw_magnitude(original) + MULAW_BIAS;
    assert((pcm & 0x7fff) == biased) by {
        assert(pcm >= 0 ==> (pcm & 0x7fff) == pcm) by (bit_vector);
    }
    let mut exponent: i16 = 7;
    let mut mask: i16 = 0x4000;
    while (pcm & mask) == 0 && exponent > 0
        invariant
            0 <= exponent <= 7,
            mask == segment_mask(exponent as int),
            (pcm & 0x7fff) < 2 * mask,
        decreases exponent,
    {
        let ghost m = mask;
        assert((pcm & 0x7fff) < m) by (bit_vector)
            requires
                m == 0x80 || m == 0x100 || m == 0x200 || m == 0x400 || m == 0x800 || m == 0x1000
                    || m == 0x2000 || m == 0x4000,
                pcm & m == 0,
                (pcm & 0x7fff) < 2 * m,
        ;
        assert(m >> 1u32 == m / 2) by (bit_vector)
            requires
                m >= 0,
        ;
        mask = mask >> 1u32;
        exponent = exponent - 1;
    }
    let ghost m = mask;
    assert(pcm & m != 0 ==> (pcm & 0x7fff) >= m) by (bit_vector)
        requires
            m == 0x80 || m == 0x100 || m == 0x200 || m == 0x400 || m == 0x800 || m == 0x1000
                || m == 0x2000 || m == 0x4000,
    ;
    assert(mulaw_segment(biased) == exponent);
    let shift: u32 = (exponent + 3) as u32;
    let mantissa: i16 = (pcm >> shift) & 0x0f;
    let ghost e = exponent;
    assert(mantissa == (((pcm & 0x7fff) as int) / (8 * pow2_small(e as int))) % 16) by {
        assert(((pcm >> shift) & 0x0f) == ((pcm & 0x7fff) >> shift) & 0x0f) by (bit_vector)
            requires
                3 <= shift <= 10,
        ;
        let u: i16 = pcm & 0x7fff;
        assert(u >= 0) by (bit_vector)
            requires
                u == pcm & 0x7fff,
        ;
        if e == 0 { assert((u >> 3u32) & 0x0f == (u / 8) % 16) by (bit_vector) requires u >= 0; }
        else if e == 1 { assert((u >> 4u32) & 0x0f == (u / 16) % 16) by (bit_vector) requires u >= 0; }
        else if e == 2 { assert((u >> 5u32) & 0x0f == (u / 32) % 16) by (bit_vector) requires u >= 0; }
        else if e == 3 { assert((u >> 6u32) & 0x0f == (u / 64) % 16) by (bit_vector) requires u >= 0; }
        else if e == 4 { assert((u >> 7u32) & 0x0f == (u / 128) % 16) by (bit_vector) requires u >= 0; }
        else if e == 5 { assert((u >> 8u32) & 0x0f == (u / 256) % 16) by (bit_vector) requires u >= 0; }
        else if e == 6 { assert((u >> 9u32) & 0x0f == (u / 512) % 16) by (bit_vector) requires u >= 0; }
        else { assert((u >> 10u32) & 0x0f == (u / 1024) % 16) by (bit_vector) requires u >= 0; }
    }
    let ulaw: u8 = (sign | (exponent << 4u32) | mantissa) as u8;
    assert(ulaw == sign + 16 * exponent + mantissa) by (bit_vector)
        requires
            ulaw == (sign | (exponent << 4u32) | mantissa) as u8,
            sign == 0 || sign == 0x80,
            0 <= exponent <= 7,
            0 <= mantissa <= 15,
    ;
    assert(!ulaw == 255 - ulaw) by (bit_vector);
    !ulaw
}

/// Upsample PCM16 from 8kHz to 16kHz using linear interpolation.
pub fn upsample_8_to_16(input: &[i16]) -> (output: Vec<i16>)
    requires
        input@.len() <= usize::MAX / 2,
    ensures
        output@ == upsample_spec(input@),
        downsample_spec(output@) == input@,
{
    proof {
        lemma_downsample_inverts_upsample(input@);
    }
    if input.len() == 0 {
        assert(upsample_spec(input@) =~= Seq::<i16>::empty());
        return Vec::new();
    }
    let n = input.len();
    let mut output: Vec<i16> = Vec::with_capacity(n * 2);
    let mut i: usize = 0;
    while i < n - 1
        invariant
            n == input@.len(),
            n >= 1,
            i <= n - 1,
            output@.len() == 2 * i,
            forall|j: int| 0 <= j < 2 * i ==> #[trigger] output@[j] == upsample_spec(input@)[j],
        decreases n - 1 - i,
    {
        let current = input[i];
        let next = input[i + 1];
        let half_current = current / 2;
        let half_next = next / 2;
        assert(half_current == half_toward_zero(current) && half_next == half_toward_zero(next));
        assert(-16384 <= half_current <= 16383 && -16384 <= half_next <= 16383);
        output.push(current);
        output.push(half_current + half_next);
        i = i + 1;
    }
    // Handle last sample
    output.push(input[n - 1]);
    output.push(input[n - 1]);
    assert(output@ =~= upsample_spec(input@));
    output
}

/// Downsample PCM16 from 16kHz to 8kHz (decimation).
pub fn downsample_16_to_8(input: &[i16]) -> (output: Vec<i16>)
    ensures
        output@ == downsample_spec(input@),
{
    let len = input.len();
    let count = len / 2 + len % 2;
    let mut output: Vec<i16> = Vec::new();
    let mut j: usize = 0;
    while j < count
        invariant
            len == input@.len(),
            count == input@.len() / 2 + input@.len() % 2,
            j <= count,
            output@ =~= downsample_spec(input@).take(j as int),
        decreases count - j,
    {
        assert(2 * j < input@.len()) by (nonlinear_arith)
            requires
                j < count,
                count == input@.len() / 2 + input@.len() % 2,
        ;
        output.push(input[2 * j]);
        j = j + 1;
    }
    assert(downsample_spec(input@).take(count as int) =~= downsample_spec(input@));
    output
}

/// Decoding a mu-law code and encoding the result gives the code back, for
/// every code but 0x7F ("negative zero"), whose value 0 encodes as 0xFF.
/// A biased magnitude built from a segment and a mantissa lies in that
/// segment, and yields that mantissa back.
proof fn lemma_segment_and_mantissa(segment: int, mantissa: int)
    requires
        0 <= segment <= 7,
        0 <= mantissa <= 15,
    ensures
        ({
            let biased = (8 * mantissa + MULAW_BIAS) * pow2_small(segment);
            &&& mulaw_segment(biased) == segment
            &&& (biased / (8 * pow2_small(segment))) % 16 == mantissa
        }),
{
    let biased = (8 * mantissa + MULAW_BIAS) * pow2_small(segment);
    let step = 8 * pow2_small(segment);
    if segment == 0 {
        assert(pow2_small(segment) == 1);
        assert(biased == (8 * mantissa + 132) * 1) by (nonlinear_arith)
            requires
                biased == (8 * mantissa + 132) * pow2_small(segment),
                pow2_small(segment) == 1,
        ;
    } else if segment == 1 {
        assert(pow2_small(segment) == 2);
        assert(biased == (8 * mantissa + 132) * 2) by (nonlinear_arith)
            requires
                biased == (8 * mantissa + 132) * pow2_small(segment),
                pow2_small(segment) == 2,
        ;
    } else if segment == 2 {
        assert(pow2_small(segment) == 4);
        assert(biased == (8 * mantissa + 132) * 4) by (nonlinear_arith)
            requires
                biased == (8 * mantissa + 132) * pow2_small(segment),
                pow2_small(segment) == 4,
        ;
    } else if segment == 3 {
        assert(pow2_small(segment) == 8);
        assert(biased == (8 * mantissa + 132) * 8) by (nonlinear_arith)
            requires
                biased == (8 * mantissa + 132) * pow2_small(segment),
                pow2_small(segment) == 8,
        ;
    } else if segment == 4 {
        assert(pow2_small(segment) == 16);
        assert(biased == (8 * mantissa + 132) * 16) by (nonlinear_arith)
            requires
                biased == (8 * mantissa + 132) * pow2_small(segment),
                pow2_small(segment) == 16,
        ;
    } else if segment == 5 {
        assert(pow2_small(segment) == 32);
        assert(biased == (8 * mantissa + 132) * 32) by (nonlinear_arith)
            requires
                biased == (8 * mantissa + 132) * pow2_small(segment),
                pow2_small(segment) == 32,
        ;
    } else if segment == 6 {
        assert(pow2_small(segment) == 64);
        assert(biased == (8 * mantissa + 132) * 64) by (nonlinear_arith)
            requires
                biased == (8 * mantissa + 132) * pow2_small(segment),
                pow2_small(segment) == 64,
        ;
    } else {
        assert(pow2_small(segment) == 128);
        assert(biased == (8 * mantissa + 132) * 128) by (nonlinear_arith)
            requires
                biased == (8 * mantissa + 132) * pow2_small(segment),
                pow2_small(segment) == 128,
        ;
    }
    assert(biased == (mantissa + 16) * step + 4 * pow2_small(segment)) by (nonlinear_arith)
        requires
            biased == (8 * mantissa + 132) * pow2_small(segment),
            step == 8 * pow2_small(segment),
    ;
    assert(biased / step == mantissa + 16) by (nonlinear_arith)
        requires
            biased == (mantissa + 16) * step + 4 * pow2_small(segment),
            step == 8 * pow2_small(segment),
            pow2_small(segment) >= 1,
    ;
}

/// Decoding a mu-law code and encoding the result gives the code back, for
/// every code but 0x7F ("negative zero"), whose value 0 encodes as 0xFF.
#[verifier::rlimit(40)]
pub proof fn lemma_mulaw_code_roundtrip(code: u8)
    requires
        code != 0x7f,
    ensures
        encode_mulaw_spec(decode_mulaw_spec(code)) == code,
{
    let c = 255 - code;
    let segment = (c % 128) / 16;
    let mantissa = c % 16;
    lemma_segment_and_mantissa(segment, mantissa);
    let magnitude = (8 * mantissa + MULAW_BIAS) * pow2_small(segment) - MULAW_BIAS;
    assert(0 <= magnitude <= 32124) by {
        assert(pow2_small(segment) <= 128);
        assert((8 * mantissa + MULAW_BIAS) * pow2_small(segment) <= 252 * 128) by (nonlinear_arith)
            requires
                0 <= mantissa <= 15,
                1 <= pow2_small(segment) <= 128,
        ;
        assert((8 * mantissa + MULAW_BIAS) * pow2_small(segment) >= 132) by (nonlinear_arith)
            requires
                0 <= mantissa <= 15,
                1 <= pow2_small(segment),
        ;
    }
    assert(magnitude == 0 ==> segment == 0 && mantissa == 0) by {
        if segment != 0 || mantissa != 0 {
            assert((8 * mantissa + MULAW_BIAS) * pow2_small(segment) > 132) by (nonlinear_arith)
                requires
                    0 <= mantissa <= 15,
                    1 <= pow2_small(segment),
                    segment != 0 || mantissa != 0,
                    segment == 0 ==> pow2_small(segment) == 1,
                    segment != 0 ==> pow2_small(segment) >= 2,
            ;
        }
    }
    let pcm = decode_mulaw_spec(code);
    assert(mulaw_magnitude(pcm) == magnitude);
    assert(c == (if c >= 128 { 128int } else { 0 }) + 16 * segment + mantissa);
}

/// Every decoded value is a fixed point of quantisation: encoding it and
/// decoding again gives the same value, for every code including 0x7F.
pub proof fn lemma_decoded_values_are_fixed_points(code: u8)
    ensures
        decode_mulaw_spec(encode_mulaw_spec(decode_mulaw_spec(code))) == decode_mulaw_spec(code),
{
    if code != 0x7f {
        lemma_mulaw_code_roundtrip(code);
    } else {
        lemma_mulaw_code_roundtrip(0xff);
        assert(pow2_small(0) == 1);
        assert(decode_mulaw_spec(0x7f) == 0);
        assert(decode_mulaw_spec(0xff) == 0);
    }
}

/// The magnitude that a clipped magnitude `m` decodes to after encoding.
pub open spec fn quantized_magnitude(m: int) -> int {
    let biased = m + MULAW_BIAS;
    let segment = mulaw_segment(biased);
    let mantissa = (biased / (8 * pow2_small(segment))) % 16;
    (8 * mantissa + MULAW_BIAS) * pow2_small(segment) - MULAW_BIAS
}

/// A clipped magnitude's biased value lies in `[128p, 256p)` for the step
/// `p` of its segment, and it quantises down to a multiple of `8p`, plus `4p`.
proof fn lemma_quantized_magnitude(m: int)
    requires
        0 <= m <= MULAW_CLIP,
    ensures
        ({
            let b = m + MULAW_BIAS;
            let p = pow2_small(mulaw_segment(b));
            let q = b / (8 * p);
            &&& 1 <= p <= 128
            &&& 128 * p <= b < 256 * p
            &&& 16 <= q < 32
            &&& quantized_magnitude(m) == 8 * p * q + 4 * p - 132
        }),
{
    let b = m + MULAW_BIAS;
    let s = mulaw_segment(b);
    let p = pow2_small(s);
    assert(1 <= p <= 128 && 128 * p <= b < 256 * p);
    let q = b / (8 * p);
    assert(8 * p * q <= b < 8 * p * q + 8 * p) by (nonlinear_arith)
        requires
            p >= 1,
            q == b / (8 * p),
    ;
    assert(16 <= q < 32) by (nonlinear_arith)
        requires
            8 * p * q <= b,
            b < 8 * p * q + 8 * p,
            128 * p <= b,
            b < 256 * p,
            p >= 1,
    ;
    assert(q % 16 == q - 16);
    assert(quantized_magnitude(m) == (8 * (q - 16) + 132) * p - 132);
    assert((8 * (q - 16) + 132) * p - 132 == 8 * p * q + 4 * p - 132) by (nonlinear_arith);
}

/// A larger clipped magnitude never quantises to a smaller one.
proof fn lemma_quantized_magnitude_monotone(m1: int, m2: int)
    requires
        0 <= m1 <= m2 <= MULAW_CLIP,
    ensures
        0 <= quantized_magnitude(m1) <= quantized_magnitude(m2) <= 32124,
{
    lemma_quantized_magnitude(m1);
    lemma_quantized_magnitude(m2);
    let b1 = m1 + MULAW_BIAS;
    let b2 = m2 + MULAW_BIAS;
    let s1 = mulaw_segment(b1);
    let s2 = mulaw_segment(b2);
    let p1 = pow2_small(s1);
    let p2 = pow2_small(s2);
    let q1 = b1 / (8 * p1);
    let q2 = b2 / (8 * p2);
    assert(0 <= 8 * p1 * q1 + 4 * p1 - 132) by (nonlinear_arith)
        requires
            p1 >= 1,
            q1 >= 16,
    ;
    assert(8 * p2 * q2 + 4 * p2 - 132 <= 32124) by (nonlinear_arith)
        requires
            1 <= p2 <= 128,
            0 <= q2 <= 31,
    ;
    assert(s1 <= s2);
    if s1 == s2 {
        vstd::arithmetic::div_mod::lemma_div_is_ordered(b1, b2, 8 * p1);
        assert(8 * p1 * q1 <= 8 * p1 * q2) by (nonlinear_arith)
            requires
                q1 <= q2,
                p1 >= 1,
        ;
    } else {
        assert(2 * p1 <= p2);
        assert(8 * p1 * q1 + 4 * p1 <= 252 * p1) by (nonlinear_arith)
            requires
                q1 <= 31,
                p1 >= 1,
        ;
        assert(8 * p2 * q2 + 4 * p2 >= 132 * p2) by (nonlinear_arith)
            requires
                q2 >= 16,
                p2 >= 1,
        ;
    }
}

/// Encoding a sample and decoding the code gives its clipped magnitude,
/// quantised, with the sample's sign.
proof fn lemma_decode_encode(pcm: i16)
    ensures
        decode_mulaw_spec(encode_mulaw_spec(pcm)) == (if pcm < 0 {
            -quantized_magnitude(mulaw_magnitude(pcm))
        } else {
            quantized_magnitude(mulaw_magnitude(pcm))
        }),
{
    let m = mulaw_magnitude(pcm);
    lemma_quantized_magnitude(m);
    lemma_quantized_magnitude_monotone(m, m);
    let biased = m + MULAW_BIAS;
    let segment = mulaw_segment(biased);
    let p = pow2_small(segment);
    let mantissa = (biased / (8 * p)) % 16;
    let sign: int = if pcm < 0 { 0x80 } else { 0 };
    assert(0 <= segment <= 7 && 0 <= mantissa <= 15);
    let c = sign + 16 * segment + mantissa;
    assert(0 <= c <= 255);
    let code = encode_mulaw_spec(pcm);
    assert(code == 255 - c);
    assert((c % 128) / 16 == segment && c % 16 == mantissa && (c >= 128 <==> pcm < 0));
    let q = quantized_magnitude(m);
    assert(q == (8 * mantissa + MULAW_BIAS) * p - MULAW_BIAS);
    assert(0 <= q <= 32124);
}

/// Quantisation keeps the order of samples: of two samples, the smaller one
/// never decodes, after encoding, to the larger value.
pub proof fn lemma_mulaw_quantisation_monotone(a: i16, b: i16)
    requires
        a <= b,
    ensures
        decode_mulaw_spec(encode_mulaw_spec(a)) <= decode_mulaw_spec(encode_mulaw_spec(b)),
{
    lemma_decode_encode(a);
    lemma_decode_encode(b);
    let ma = mulaw_magnitude(a);
    let mb = mulaw_magnitude(b);
    if a < 0 && b < 0 {
        lemma_quantized_magnitude_monotone(mb, ma);
    } else if a < 0 {
        lemma_quantized_magnitude_monotone(ma, ma);
        lemma_quantized_magnitude_monotone(mb, mb);
    } else {
        lemma_quantized_magnitude_monotone(ma, mb);
    }
}

/// A stream of mu-law bytes without 0x7F survives decoding to PCM16 and
/// encoding back unchanged.
pub proof fn lemma_mulaw_stream_roundtrip(codes: Seq<u8>)
    requires
        forall|i: int| 0 <= i < codes.len() ==> codes[i] != 0x7f,
    ensures
        codes.map_values(|code: u8| decode_mulaw_spec(code)).map_values(
            |pcm: i16| encode_mulaw_spec(pcm),
        ) == codes,
{
    let decoded = codes.map_values(|code: u8| decode_mulaw_spec(code));
    let round = decoded.map_values(|pcm: i16| encode_mulaw_spec(pcm));
    assert forall|i: int| 0 <= i < codes.len() implies round[i] == codes[i] by {
        lemma_mulaw_code_roundtrip(codes[i]);
    }
    assert(round =~= codes);
}

/// Decimating an upsampled signal gives back the original samples.
pub proof fn lemma_downsample_inverts_upsample(x: Seq<i16>)
    ensures
        downsample_spec(upsample_spec(x)) == x,
{
    let up = upsample_spec(x);
    let down = downsample_spec(up);
    assert(down.len() == x.len());
    assert forall|j: int| 0 <= j < x.len() implies down[j] == x[j] by {
        assert((2 * j) % 2 == 0 && (2 * j) / 2 == j);
    }
    assert(down =~= x);
}

/// The 16-bit two's-complement word of a sample, as an unsigned value.
pub open spec fn sample_word(sample: i16) -> int {
    if sample < 0 { sample + 0x10000 } else { sample as int }
}

/// The sample whose two's-complement word is `word` (`0..0x10000`).
pub open spec fn word_sample(word: int) -> i16 {
    if word >= 0x8000 { (word - 0x10000) as i16 } else { word as i16 }
}

/// Samples serialised little-endian, two bytes each, low byte first.
pub open spec fn pcm16_le_bytes_spec(samples: Seq<i16>) -> Seq<u8> {
    Seq::new(
        (2 * samples.len()) as nat,
        |j: int|
            if j % 2 == 0 {
                (sample_word(samples[j / 2]) % 256) as u8
            } else {
                (sample_word(samples[j / 2]) / 256) as u8
            },
    )
}

/// Little-endian byte pairs read as samples; a trailing odd byte is dropped.
pub open spec fn pcm16_from_le_bytes_spec(bytes: Seq<u8>) -> Seq<i16> {
    Seq::new(bytes.len() / 2, |i: int| word_sample(bytes[2 * i] + 256 * bytes[2 * i + 1]))
}

/// Serialise samples as little-endian bytes.
pub fn pcm16_to_le_bytes(samples: &[i16]) -> (bytes: Vec<u8>)
    requires
        samples@.len() <= usize::MAX / 2,
    ensures
        bytes@ == pcm16_le_bytes_spec(samples@),
{
    let mut bytes: Vec<u8> = Vec::new();
    let mut i: usize = 0;
    while i < samples.len()
        invariant
            i <= samples@.len(),
            bytes@.len() == 2 * i,
            forall|j: int| 0 <= j < 2 * i ==> #[trigger] bytes@[j] == pcm16_le_bytes_spec(samples@)[j],
        decreases samples@.len() - i,
    {
        let sample = samples[i];
        let word = sample as u16;
        let low = (word & 0xff) as u8;
        let high = (word >> 8u32) as u8;
        assert(low == sample_word(sample) % 256 && high == sample_word(sample) / 256) by (bit_vector)
            requires
                word == sample as u16,
                low == (word & 0xff) as u8,
                high == (word >> 8u32) as u8,
        ;
        bytes.push(low);
        bytes.push(high);
        i = i + 1;
    }
    assert(bytes@ =~= pcm16_le_bytes_spec(samples@));
    bytes
}

/// Read little-endian byte pairs as samples, dropping a trailing odd byte.
pub fn pcm16_from_le_bytes(bytes: &[u8]) -> (samples: Vec<i16>)
    ensures
        samples@ == pcm16_from_le_bytes_spec(bytes@),
{
    let len = bytes.len();
    let count = len / 2;
    let mut samples: Vec<i16> = Vec::new();
    let mut i: usize = 0;
    while i < count
        invariant
            len == bytes@.len(),
            count == bytes@.len() / 2,
            i <= count,
            samples@ =~= pcm16_from_le_bytes_spec(bytes@).take(i as int),
        decreases count - i,
    {
        assert(2 * i + 1 < len);
        let low = bytes[2 * i];
        let high = bytes[2 * i + 1];
        let word: u16 = ((high as u16) << 8u32) | (low as u16);
        let sample = word as i16;
        assert(sample == word_sample(low + 256 * high)) by (bit_vector)
            requires
                word == ((high as u16) << 8u32) | (low as u16),
                sample == word as i16,
        ;
        samples.push(sample);
        i = i + 1;
    }
    assert(pcm16_from_le_bytes_spec(bytes@).take(count as int) =~= pcm16_from_le_bytes_spec(bytes@));
    samples
}

/// Reading back serialised samples gives the samples.
pub proof fn lemma_le_bytes_roundtrip(samples: Seq<i16>)
    ensures
        pcm16_from_le_bytes_spec(pcm16_le_bytes_spec(samples)) == samples,
{
    let bytes = pcm16_le_bytes_spec(samples);
    let back = pcm16_from_le_bytes_spec(bytes);
    assert forall|i: int| 0 <= i < samples.len() implies back[i] == samples[i] by {
        assert((2 * i) % 2 == 0 && (2 * i) / 2 == i);
        assert((2 * i + 1) % 2 == 1 && (2 * i + 1) / 2 == i);
        let w = sample_word(samples[i]);
        assert(w % 256 + 256 * (w / 256) == w);
    }
    assert(back =~= samples);
}

/// Serialising the samples read from an even number of bytes gives the bytes.
pub proof fn lemma_le_samples_roundtrip(bytes: Seq<u8>)
    requires
        bytes.len() % 2 == 0,
    ensures
        pcm16_le_bytes_spec(pcm16_from_le_bytes_spec(bytes)) == bytes,
{
    let samples = pcm16_from_le_bytes_spec(bytes);
    let back = pcm16_le_bytes_spec(samples);
    assert forall|j: int| 0 <= j < bytes.len() implies back[j] == bytes[j] by {
        let i = j / 2;
        let low = bytes[2 * i];
        let high = bytes[2 * i + 1];
        let word = low + 256 * high;
        assert(0 <= word < 0x10000);
        assert(sample_word(word_sample(word)) == word);
        assert(word % 256 == low && word / 256 == high) by (nonlinear_arith)
            requires
                word == low + 256 * high,
                0 <= low < 256,
                0 <= high < 256,
        ;
        assert(samples[i] == word_sample(word));
        assert(j == 2 * i || j == 2 * i + 1);
    }
    assert(back =~= bytes);
}

} // verus!
