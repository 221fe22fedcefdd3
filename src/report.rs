//! Framing of the status channel that the child writes to the supervisor.
//!
//! A frame is one status byte; a zero byte means the child is about to run
//! the target. A non-zero byte is followed by the payload length as eight
//! little-endian bytes, then the payload itself.
use vstd::arithmetic::power::pow;
use vstd::prelude::*;

verus! {

/// Number of bytes that carry the payload length.
pub const LENGTH_BYTES: usize = 8;

/// The value of a little-endian byte string.
pub open spec fn le_value(b: Seq<u8>) -> nat
    decreases b.len(),
{
    if b.len() == 0 {
        0
    } else {
        b[0] as nat + 256 * le_value(b.drop_first())
    }
}

/// The `k` low bytes of `n`, least significant first.
pub open spec fn le_bytes(n: nat, k: nat) -> Seq<u8>
    decreases k,
{
    if k == 0 {
        seq![]
    } else {
        seq![(n % 256) as u8] + le_bytes(n / 256, (k - 1) as nat)
    }
}

/// What the child writes once bring-up has succeeded.
pub open spec fn success_frame() -> Seq<u8> {
    seq![0u8]
}

/// What the child writes when bring-up failed with `code`.
pub open spec fn failure_frame(code: u8, payload: Seq<u8>) -> Seq<u8> {
    seq![code] + le_bytes(payload.len(), LENGTH_BYTES as nat) + payload
}

/// A decoded frame.
#[derive(Debug, PartialEq, Eq)]
pub enum ReportFrame {
    Ready,
    Failure { code: u8, payload: Vec<u8> },
}

/// Why a byte string is not exactly one frame.
#[derive(Debug, Clone, Copy, PartialEq, Eq, Structural)]
pub enum FrameError {
    /// The bytes end before the frame does.
    Truncated,
    /// Bytes follow the end of the frame.
    TrailingBytes,
}

/// The model of a frame: its status and its payload.
pub enum FrameView {
    Ready,
    Failure { code: u8, payload: Seq<u8> },
}

impl ReportFrame {
    pub open spec fn view(&self) -> FrameView {
        match self {
            ReportFrame::Ready => FrameView::Ready,
            ReportFrame::Failure { code, payload } => FrameView::Failure {
                code: *code,
                payload: payload@,
            },
        }
    }
}

/// The bytes of a frame.
pub open spec fn frame_bytes(f: FrameView) -> Seq<u8> {
    match f {
        FrameView::Ready => success_frame(),
        FrameView::Failure { code, payload } => failure_frame(code, payload),
    }
}

/// How a complete byte string decodes.
pub open spec fn decode_spec(b: Seq<u8>) -> Result<FrameView, FrameError> {
    if b.len() == 0 {
        Err(FrameError::Truncated)
    } else if b[0] == 0 {
        if b.len() == 1 {
            Ok(FrameView::Ready)
        } else {
            Err(FrameError::TrailingBytes)
        }
    } else if b.len() < 1 + LENGTH_BYTES {
        Err(FrameError::Truncated)
    } else {
        let n = le_value(b.subrange(1, 1 + LENGTH_BYTES as int));
        let rest = b.subrange(1 + LENGTH_BYTES as int, b.len() as int);
        if rest.len() < n {
            Err(FrameError::Truncated)
        } else if rest.len() > n {
            Err(FrameError::TrailingBytes)
        } else {
            Ok(FrameView::Failure { code: b[0], payload: rest })
        }
    }
}

proof fn lemma_le_value_bound(b: Seq<u8>)
    ensures
        le_value(b) < pow(256, b.len()),
    decreases b.len(),
{
    reveal(pow);
    if b.len() > 0 {
        lemma_le_value_bound(b.drop_first());
        let p = pow(256, (b.len() - 1) as nat);
        let v = le_value(b.drop_first());
        let d = b[0] as nat;
        assert(d + 256 * v < 256 * p) by (nonlinear_arith)
            requires
                v < p,
                d < 256,
        ;
    }
}

pub(crate) proof fn lemma_le_round_trip(n: nat, k: nat)
    requires
        n < pow(256, k),
    ensures
        le_value(le_bytes(n, k)) == n,
        le_bytes(n, k).len() == k,
    decreases k,
{
    reveal(pow);
    if k == 0 {
    } else {
        let p = pow(256, (k - 1) as nat);
        assert(n / 256 < p) by (nonlinear_arith)
            requires
                n < 256 * p,
        ;
        lemma_le_round_trip(n / 256, (k - 1) as nat);
        let s = le_bytes(n, k);
        assert(s.drop_first() =~= le_bytes(n / 256, (k - 1) as nat));
        assert(n == n % 256 + 256 * (n / 256)) by (nonlinear_arith);
    }
}

proof fn lemma_le_value_prefix(b: Seq<u8>, i: int)
    requires
        0 <= i < b.len(),
    ensures
        le_value(b.subrange(i, b.len() as int)) == b[i] as nat + 256 * le_value(
            b.subrange(i + 1, b.len() as int),
        ),
{
    assert(b.subrange(i, b.len() as int).drop_first() =~= b.subrange(i + 1, b.len() as int));
}

pub(crate) proof fn lemma_pow_256_8()
    ensures
        pow(256, 7) == 0x100_0000_0000_0000,
        pow(256, 8) == 0x1_0000_0000_0000_0000,
{
    reveal(pow);
    assert(pow(256, 0) == 1);
    assert(pow(256, 1) == 0x100);
    assert(pow(256, 2) == 0x1_0000);
    assert(pow(256, 3) == 0x100_0000);
    assert(pow(256, 4) == 0x1_0000_0000);
    assert(pow(256, 5) == 0x100_0000_0000);
    assert(pow(256, 6) == 0x1_0000_0000_0000);
    assert(pow(256, 7) == 0x100_0000_0000_0000);
}

/// Reads the payload length from its eight bytes.
pub fn decode_length(b: &[u8]) -> (r: u64)
    requires
        b@.len() == LENGTH_BYTES,
    ensures
        r as nat == le_value(b@),
{
    let mut acc: u64 = 0;
    let mut i: usize = LENGTH_BYTES;
    while i > 0
        invariant
            b@.len() == LENGTH_BYTES,
            0 <= i <= LENGTH_BYTES,
            acc as nat == le_value(b@.subrange(i as int, LENGTH_BYTES as int)),
        decreases i,
    {
        i = i - 1;
        proof {
            let tail = b@.subrange(i as int + 1, LENGTH_BYTES as int);
            lemma_le_value_bound(tail);
            lemma_le_value_prefix(b@, i as int);
            lemma_pow_256_8();
            vstd::arithmetic::power::lemma_pow_increases(256, tail.len(), 7);
            let p = pow(256, tail.len());
            let a = acc as nat;
            let d = b@[i as int] as nat;
            assert(d + 256 * a < 0x1_0000_0000_0000_0000) by (nonlinear_arith)
                requires
                    a < p,
                    p <= pow(256, 7),
                    256 * pow(256, 7) == 0x1_0000_0000_0000_0000,
                    d < 256,
            ;
        }
        acc = b[i] as u64 + 256 * acc;
    }
    proof {
        assert(b@.subrange(0, LENGTH_BYTES as int) =~= b@);
    }
    acc
}

/// The frame a child writes once bring-up has succeeded.
pub fn encode_success() -> (r: Vec<u8>)
    ensures
        r@ == success_frame(),
{
    let mut out: Vec<u8> = Vec::new();
    out.push(0u8);
    proof {
        assert(out@ =~= success_frame());
    }
    out
}

/// The frame a child writes when bring-up failed with `code`.
pub fn encode_failure(code: u8, payload: &Vec<u8>) -> (r: Vec<u8>)
    requires
        code != 0,
    ensures
        r@ == failure_frame(code, payload@),
{
    let mut out: Vec<u8> = Vec::new();
    out.push(code);
    let mut cur: u64 = payload.len() as u64;
    let mut i: usize = 0;
    while i < LENGTH_BYTES
        invariant
            0 <= i <= LENGTH_BYTES,
            out@ + le_bytes(cur as nat, (LENGTH_BYTES - i) as nat) == seq![code] + le_bytes(
                payload@.len(),
                LENGTH_BYTES as nat,
            ),
        decreases LENGTH_BYTES - i,
    {
        proof {
            let k = (LENGTH_BYTES - i) as nat;
            assert(le_bytes(cur as nat, k) == seq![(cur % 256) as u8] + le_bytes(
                (cur / 256) as nat,
                (k - 1) as nat,
            ));
            assert(out@.push((cur % 256) as u8) + le_bytes((cur / 256) as nat, (k - 1) as nat)
                =~= out@ + le_bytes(cur as nat, k));
        }
        out.push((cur % 256) as u8);
        cur = cur / 256;
        i = i + 1;
    }
    proof {
        assert(le_bytes(cur as nat, 0) =~= Seq::<u8>::empty());
        assert(out@ + Seq::<u8>::empty() =~= out@);
    }
    let mut j: usize = 0;
    let ghost head = out@;
    while j < payload.len()
        invariant
            0 <= j <= payload@.len(),
            out@ == head + payload@.subrange(0, j as int),
        decreases payload@.len() - j,
    {
        out.push(payload[j]);
        j = j + 1;
        proof {
            assert(out@ =~= head + payload@.subrange(0, j as int));
        }
    }
    proof {
        assert(payload@.subrange(0, payload@.len() as int) =~= payload@);
    }
    out
}

/// Decodes a byte string that should hold exactly one frame.
pub fn decode_frame(b: &Vec<u8>) -> (r: Result<ReportFrame, FrameError>)
    ensures
        match (r, decode_spec(b@)) {
            (Ok(f), Ok(v)) => f@ == v,
            (Err(e), Err(w)) => e == w,
            _ => false,
        },
{
    if b.len() == 0 {
        return Err(FrameError::Truncated);
    }
    let code = b[0];
    if code == 0 {
        if b.len() == 1 {
            return Ok(ReportFrame::Ready);
        }
        return Err(FrameError::TrailingBytes);
    }
    if b.len() < 1 + LENGTH_BYTES {
        return Err(FrameError::Truncated);
    }
    let n = decode_length(&b.as_slice()[1..1 + LENGTH_BYTES]);
    let rest_len = b.len() - (1 + LENGTH_BYTES);
    if (rest_len as u64) < n {
        return Err(FrameError::Truncated);
    }
    if (rest_len as u64) > n {
        return Err(FrameError::TrailingBytes);
    }
    let mut payload: Vec<u8> = Vec::new();
    let mut j: usize = 1 + LENGTH_BYTES;
    while j < b.len()
        invariant
            1 + LENGTH_BYTES <= j <= b@.len(),
            payload@ == b@.subrange(1 + LENGTH_BYTES as int, j as int),
        decreases b@.len() - j,
    {
        payload.push(b[j]);
        j = j + 1;
        proof {
            assert(payload@ =~= b@.subrange(1 + LENGTH_BYTES as int, j as int));
        }
    }
    Ok(ReportFrame::Failure { code, payload })
}

/// Framing round trip: every failure frame the child can write decodes to
/// the same code and payload, and the success frame decodes to readiness.
pub proof fn lemma_report_round_trip(code: u8, payload: Seq<u8>)
    requires
        code != 0,
        payload.len() < 0x1_0000_0000_0000_0000,
    ensures
        decode_spec(failure_frame(code, payload)) == Ok::<FrameView, FrameError>(
            FrameView::Failure { code, payload },
        ),
        decode_spec(success_frame()) == Ok::<FrameView, FrameError>(FrameView::Ready),
{
    lemma_pow_256_8();
    lemma_le_round_trip(payload.len(), 8);
    let b = failure_frame(code, payload);
    assert(b.subrange(1, 9) =~= le_bytes(payload.len(), 8));
    assert(b.subrange(9, b.len() as int) =~= payload);
}

} // verus!
