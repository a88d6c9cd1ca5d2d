//! Wire codec: type-tagged, multi-frame transport.
//!
//! A payload is split into at most `FRAME_CAPACITY`-byte fragments; every
//! frame carries the declared type tag, its fragment index, the total
//! fragment count and the checksum of the whole payload, so frames are
//! self-describing and may arrive in any order. Reassembly succeeds only
//! when every index is present, the checksum of the assembled bytes equals
//! the declared one, and the declared tag equals the expected tag.

use vstd::prelude::*;

use crate::errors::TransportError;

verus! {

/// Registry type tag of a transport payload.
#[derive(Debug, Clone, Copy, PartialEq, Eq, Hash, Structural)]
pub enum TypeTag {
    /// An extended-public-key export from the signing device.
    PublicKeyExport,
    /// A request that the device sign a message or a transaction.
    SignRequest,
    /// The device's 65-byte recoverable signature.
    Signature,
}

/// One self-describing fragment of a logical message.
#[derive(Debug)]
pub struct TransportFrame {
    pub tag: TypeTag,
    pub index: u32,
    pub total: u32,
    pub checksum: u64,
    pub payload: Vec<u8>,
}

/// Mathematical model of a frame.
pub ghost struct FrameView {
    pub tag: TypeTag,
    pub index: int,
    pub total: int,
    pub checksum: int,
    pub payload: Seq<u8>,
}

impl View for TransportFrame {
    type V = FrameView;

    open spec fn view(&self) -> FrameView {
        (FrameView {
            tag: self.tag,
            index: self.index as int,
            total: self.total as int,
            checksum: self.checksum as int,
            payload: self.payload@,
        })
    }
}

pub open spec fn frames_view(fs: Seq<TransportFrame>) -> Seq<FrameView> {
    fs.map(|i: int, f: TransportFrame| f@)
}

/// Fixed per-frame payload capacity, in bytes.
pub const FRAME_CAPACITY: usize = 128;

/// Largest payload the codec accepts.
pub const MAX_PAYLOAD_LEN: usize = 0xFFFF_FFFF;

pub open spec fn cap() -> int {
    FRAME_CAPACITY as int
}

/// Checksum of a payload: the sum of its bytes.
pub open spec fn checksum_of(s: Seq<u8>) -> nat
    decreases s.len(),
{
    if s.len() == 0 {
        0nat
    } else {
        (checksum_of(s.drop_last()) + s.last()) as nat
    }
}

/// Number of fragments a payload of `len` bytes occupies; an empty
/// payload still occupies one (empty) fragment.
pub open spec fn spec_chunk_count(len: int) -> int {
    if len <= 0 {
        1
    } else {
        (len + cap() - 1) / cap()
    }
}

/// The `i`-th fragment of `p`.
pub open spec fn chunk_of(p: Seq<u8>, i: int) -> Seq<u8> {
    if (i + 1) * cap() <= p.len() {
        p.subrange(i * cap(), (i + 1) * cap())
    } else {
        p.subrange(i * cap(), p.len() as int)
    }
}

/// The `i`-th frame of the encoding of `p` under `tag`.
pub open spec fn spec_frame(p: Seq<u8>, tag: TypeTag, i: int) -> FrameView {
    (FrameView {
        tag: tag,
        index: i,
        total: spec_chunk_count(p.len() as int),
        checksum: checksum_of(p) as int,
        payload: chunk_of(p, i),
    })
}

/// The full encoding of `p` under `tag`.
pub open spec fn spec_encode(p: Seq<u8>, tag: TypeTag) -> Seq<FrameView> {
    Seq::new(spec_chunk_count(p.len() as int) as nat, |i: int| spec_frame(p, tag, i))
}

/// All frames agree on tag, total and checksum, and every index is in
/// range of the declared total.
pub open spec fn frames_consistent(fs: Seq<FrameView>) -> bool {
    forall|i: int|
        0 <= i < fs.len() ==> {
            &&& (#[trigger] fs[i]).tag == fs[0].tag
            &&& fs[i].total == fs[0].total
            &&& fs[i].checksum == fs[0].checksum
            &&& 0 <= fs[i].index < fs[i].total
        }
}

pub open spec fn has_index(fs: Seq<FrameView>, j: int) -> bool {
    exists|k: int| 0 <= k < fs.len() && (#[trigger] fs[k]).index == j
}

/// Every fragment index below the declared total has been received.
pub open spec fn frames_complete(fs: Seq<FrameView>) -> bool {
    fs.len() > 0 && (forall|j: int| 0 <= j < fs[0].total ==> has_index(fs, j))
}

/// Payload of the first frame (in arrival order) whose index is `j`.
pub open spec fn first_payload(fs: Seq<FrameView>, j: int) -> Seq<u8>
    decreases fs.len(),
{
    if fs.len() == 0 {
        Seq::empty()
    } else if has_index(fs.drop_last(), j) {
        first_payload(fs.drop_last(), j)
    } else if fs.last().index == j {
        fs.last().payload
    } else {
        Seq::empty()
    }
}

/// Concatenation of the fragments with indices `0 .. t`.
pub open spec fn assembled_prefix(fs: Seq<FrameView>, t: int) -> Seq<u8>
    decreases t,
{
    if t <= 0 {
        Seq::empty()
    } else {
        assembled_prefix(fs, t - 1) + first_payload(fs, t - 1)
    }
}

/// The payload assembled from a consistent, complete frame set.
pub open spec fn assembled_of(fs: Seq<FrameView>) -> Seq<u8> {
    assembled_prefix(fs, fs[0].total)
}

/// Exact outcome of decoding a frame set while expecting `expected`:
/// no frames or missing fragments give `Incomplete`; disagreeing frames
/// or a checksum mismatch give `Malformed`; a wrong declared tag on an
/// otherwise sound message gives `UnexpectedType`.
pub open spec fn spec_decode(fs: Seq<FrameView>, expected: TypeTag) -> Result<
    Seq<u8>,
    TransportError,
> {
    if fs.len() == 0 {
        Err(TransportError::Incomplete)
    } else if !frames_consistent(fs) {
        Err(TransportError::Malformed)
    } else if !frames_complete(fs) {
        Err(TransportError::Incomplete)
    } else if checksum_of(assembled_of(fs)) != fs[0].checksum {
        Err(TransportError::Malformed)
    } else if fs[0].tag != expected {
        Err(TransportError::UnexpectedType)
    } else {
        Ok(assembled_of(fs))
    }
}

/// Computes the checksum of a payload small enough to encode.
pub fn compute_checksum(v: &Vec<u8>) -> (r: u64)
    requires
        v@.len() <= MAX_PAYLOAD_LEN,
    ensures
        r as nat == checksum_of(v@),
{
    let mut acc: u64 = 0;
    let mut i: usize = 0;
    while i < v.len()
        invariant
            i <= v@.len() <= MAX_PAYLOAD_LEN,
            acc as nat == checksum_of(v@.subrange(0, i as int)),
            acc as nat <= 255 * i,
        decreases v@.len() - i,
    {
        proof {
            assert(v@.subrange(0, i + 1).drop_last() =~= v@.subrange(0, i as int));
        }
        acc = acc + (v[i] as u64);
        i = i + 1;
    }
    proof {
        assert(v@.subrange(0, v@.len() as int) =~= v@);
    }
    acc
}

/// Checksum of an arbitrary assembled payload, wide enough never to
/// overflow.
fn compute_checksum_wide(v: &Vec<u8>) -> (r: u128)
    ensures
        r as nat == checksum_of(v@),
{
    let mut acc: u128 = 0;
    let mut i: usize = 0;
    while i < v.len()
        invariant
            i <= v@.len(),
            acc as nat == checksum_of(v@.subrange(0, i as int)),
            acc as nat <= 255 * i,
        decreases v@.len() - i,
    {
        proof {
            assert(v@.subrange(0, i + 1).drop_last() =~= v@.subrange(0, i as int));
            assert(255 * (i as nat) + 255 <= 255 * ((i + 1) as nat)) by (nonlinear_arith);
            assert(255 * ((i + 1) as nat) <= 255 * (v@.len() as nat)) by (nonlinear_arith)
                requires
                    i + 1 <= v@.len(),
            ;
            assert(255 * (v@.len() as nat) < 0x1_0000_0000_0000_0000_0000_0000_0000_0000)
                by (nonlinear_arith)
                requires
                    v@.len() < 0x1_0000_0000_0000_0000,
            ;
        }
        acc = acc + (v[i] as u128);
        i = i + 1;
    }
    proof {
        assert(v@.subrange(0, v@.len() as int) =~= v@);
    }
    acc
}

/// Splits `payload` into self-describing frames tagged `tag`.
pub fn encode(payload: &Vec<u8>, tag: TypeTag) -> (frames: Vec<TransportFrame>)
    requires
        payload@.len() <= MAX_PAYLOAD_LEN,
    ensures
        frames_view(frames@) == spec_encode(payload@, tag),
        frames@.len() == spec_chunk_count(payload@.len() as int),
{
    let len = payload.len();
    let checksum = compute_checksum(payload);
    let total: usize = if len == 0 {
        1
    } else {
        (len - 1) / FRAME_CAPACITY + 1
    };
    proof {
        if len > 0 {
            assert((len - 1) / cap() + 1 == (len + cap() - 1) / cap()) by (nonlinear_arith)
                requires
                    len >= 1,
                    cap() == 128,
            ;
        }
        assert(total <= MAX_PAYLOAD_LEN / 128 + 1);
    }
    let mut frames: Vec<TransportFrame> = Vec::new();
    let mut i: usize = 0;
    while i < total
        invariant
            len == payload@.len(),
            total == spec_chunk_count(payload@.len() as int),
            total <= 0x0200_0000,
            payload@.len() <= MAX_PAYLOAD_LEN,
            checksum as nat == checksum_of(payload@),
            i <= total,
            frames@.len() == i,
            forall|k: int| 0 <= k < i ==> frames_view(frames@)[k] == spec_frame(payload@, tag, k),
        decreases total - i,
    {
        proof {
            if payload@.len() == 0 {
                assert(total == 1);
                assert(i == 0);
            } else {
                assert(i * 128 <= (total - 1) * 128) by (nonlinear_arith)
                    requires
                        i < total,
                ;
                assert((total - 1) * 128 < payload@.len()) by (nonlinear_arith)
                    requires
                        total == (payload@.len() + 127) / 128,
                        payload@.len() >= 1,
                ;
            }
        }
        let start = i * FRAME_CAPACITY;
        proof {
            assert(start == i * cap());
            assert(start <= len);
        }
        let stop = if len - start > FRAME_CAPACITY {
            start + FRAME_CAPACITY
        } else {
            len
        };
        let chunk_slice = vstd::slice::slice_subrange(payload.as_slice(), start, stop);
        let chunk = vstd::slice::slice_to_vec(chunk_slice);
        let frame = TransportFrame {
            tag: tag,
            index: i as u32,
            total: total as u32,
            checksum: checksum,
            payload: chunk,
        };
        proof {
            assert((i as int + 1) * cap() == i as int * cap() + cap()) by (nonlinear_arith);
            assert(frame@.payload =~= chunk_of(payload@, i as int));
        }
        frames.push(frame);
        proof {
            assert(forall|k: int|
                0 <= k < i ==> frames_view(frames@)[k] == spec_frame(payload@, tag, k));
            assert(frames_view(frames@)[i as int] == spec_frame(payload@, tag, i as int));
        }
        i = i + 1;
    }
    proof {
        assert(frames_view(frames@) =~~= spec_encode(payload@, tag));
    }
    frames
}

/// `k` is the position of the first frame carrying index `j`, so that
/// frame's payload is the fragment the assembly uses.
proof fn lemma_first_payload_at(fs: Seq<FrameView>, j: int, k: int)
    requires
        0 <= k < fs.len(),
        fs[k].index == j,
        forall|k2: int| 0 <= k2 < k ==> (#[trigger] fs[k2]).index != j,
    ensures
        first_payload(fs, j) == fs[k].payload,
    decreases fs.len(),
{
    if k == fs.len() - 1 {
        assert(!has_index(fs.drop_last(), j));
    } else {
        assert(has_index(fs.drop_last(), j)) by {
            assert(fs.drop_last()[k].index == j);
        }
        lemma_first_payload_at(fs.drop_last(), j, k);
    }
}

/// Position of the first frame carrying fragment index `j`, if any.
fn find_first(frames: &Vec<TransportFrame>, j: u32) -> (r: Option<usize>)
    ensures
        (match r {
            Some(k) => k < frames@.len() && frames_view(frames@)[k as int].index == j as int
                && (forall|k2: int|
                0 <= k2 < k ==> (#[trigger] frames_view(frames@)[k2]).index != j as int),
            None => forall|k2: int|
                0 <= k2 < frames@.len() ==> (#[trigger] frames_view(frames@)[k2]).index
                    != j as int,
        }),
{
    let mut k: usize = 0;
    while k < frames.len()
        invariant
            k <= frames@.len(),
            forall|k2: int|
                0 <= k2 < k ==> (#[trigger] frames_view(frames@)[k2]).index != j as int,
        decreases frames@.len() - k,
    {
        if frames[k].index == j {
            return Some(k);
        }
        k = k + 1;
    }
    None
}

/// Decodes a set of frames expecting `expected`; pure over the input,
/// with outcome exactly `spec_decode`.
pub fn decode(frames: &Vec<TransportFrame>, expected: TypeTag) -> (r: Result<
    Vec<u8>,
    TransportError,
>)
    ensures
        (match r {
            Ok(v) => spec_decode(frames_view(frames@), expected) == Ok::<Seq<u8>, TransportError>(
                v@,
            ),
            Err(e) => spec_decode(frames_view(frames@), expected) == Err::<
                Seq<u8>,
                TransportError,
            >(e),
        }),
{
    let ghost fsv = frames_view(frames@);
    if frames.len() == 0 {
        return Err(TransportError::Incomplete);
    }
    let tag0 = frames[0].tag;
    let total0 = frames[0].total;
    let ck0 = frames[0].checksum;
    if !(frames[0].index < total0) {
        proof {
            assert(!frames_consistent(fsv));
        }
        return Err(TransportError::Malformed);
    }
    let mut i: usize = 1;
    while i < frames.len()
        invariant
            fsv == frames_view(frames@),
            fsv.len() == frames@.len() > 0,
            i <= frames@.len(),
            tag0 == fsv[0].tag,
            total0 as int == fsv[0].total,
            ck0 as int == fsv[0].checksum,
            forall|k: int|
                0 <= k < i ==> {
                    &&& (#[trigger] fsv[k]).tag == fsv[0].tag
                    &&& fsv[k].total == fsv[0].total
                    &&& fsv[k].checksum == fsv[0].checksum
                    &&& fsv[k].index < fsv[k].total
                },
        decreases frames@.len() - i,
    {
        let f = &frames[i];
        if !(f.tag == tag0 && f.total == total0 && f.checksum == ck0 && f.index < f.total) {
            proof {
                assert(fsv[i as int] == frames@[i as int]@);
                assert(fsv[0] == frames@[0]@);
                assert(!frames_consistent(fsv)) by {
                    if frames_consistent(fsv) {
                        assert((fsv[i as int]).tag == fsv[0].tag && fsv[i as int].total
                            == fsv[0].total && fsv[i as int].checksum == fsv[0].checksum && 0 <= fsv[
                            i as int
                        ].index < fsv[i as int].total);
                    }
                }
            }
            return Err(TransportError::Malformed);
        }
        i = i + 1;
    }
    proof {
        assert(frames_consistent(fsv));
    }
    // Assemble fragments 0 .. total0 in order, taking for each index the
    // first frame that carries it.
    let mut out: Vec<u8> = Vec::new();
    let mut j: usize = 0;
    while j < total0 as usize
        invariant
            fsv == frames_view(frames@),
            fsv.len() == frames@.len() > 0,
            frames_consistent(fsv),
            total0 as int == fsv[0].total,
            tag0 == fsv[0].tag,
            ck0 as int == fsv[0].checksum,
            j <= total0 as usize,
            forall|j2: int| 0 <= j2 < j ==> has_index(fsv, j2),
            out@ == assembled_prefix(fsv, j as int),
        decreases total0 - j,
    {
        let k = match find_first(frames, j as u32) {
            Some(k) => k,
            None => {
                proof {
                    assert(!has_index(fsv, j as int));
                    assert(!frames_complete(fsv));
                }
                return Err(TransportError::Incomplete);
            },
        };
        proof {
            lemma_first_payload_at(fsv, j as int, k as int);
        }
        let mut chunk = vstd::slice::slice_to_vec(frames[k].payload.as_slice());
        out.append(&mut chunk);
        j = j + 1;
    }
    proof {
        assert(frames_complete(fsv));
        assert(out@ == assembled_of(fsv));
    }
    let computed = compute_checksum_wide(&out);
    if computed != ck0 as u128 {
        proof {
            assert(checksum_of(assembled_of(fsv)) != fsv[0].checksum);
        }
        return Err(TransportError::Malformed);
    }
    if !(tag0 == expected) {
        return Err(TransportError::UnexpectedType);
    }
    Ok(out)
}

/// Fragments of the encoding of `p` carry their own position as index and
/// the fragments of `p` as payloads; assembling the first `t` of them
/// yields the first `t` chunks of `p`.
proof fn lemma_assembled_identity(fs: Seq<FrameView>, p: Seq<u8>, t: int)
    requires
        fs.len() == spec_chunk_count(p.len() as int),
        forall|i: int|
            0 <= i < fs.len() ==> (#[trigger] fs[i]).index == i && fs[i].payload == chunk_of(p, i),
        0 <= t <= fs.len(),
    ensures
        assembled_prefix(fs, t) == (if t * cap() <= p.len() {
            p.subrange(0, t * cap())
        } else {
            p.subrange(0, p.len() as int)
        }),
    decreases t,
{
    if t == 0 {
        assert(assembled_prefix(fs, 0) =~= p.subrange(0, 0));
    } else {
        lemma_assembled_identity(fs, p, t - 1);
        lemma_first_payload_at(fs, t - 1, t - 1);
        assert(first_payload(fs, t - 1) == chunk_of(p, t - 1));
        assert((t - 1) * cap() == t * cap() - cap()) by (nonlinear_arith);
        if (t - 1) * cap() <= p.len() {
            if t * cap() <= p.len() {
                assert(p.subrange(0, (t - 1) * cap()) + p.subrange((t - 1) * cap(), t * cap())
                    =~= p.subrange(0, t * cap()));
            } else {
                assert(p.subrange(0, (t - 1) * cap()) + p.subrange(
                    (t - 1) * cap(),
                    p.len() as int,
                ) =~= p.subrange(0, p.len() as int));
            }
        } else {
            // Beyond the last chunk: only possible when t - 1 is not a
            // valid chunk ordinal, which the bounds exclude.
            assert((t - 1) < fs.len());
            if p.len() == 0 {
                assert(fs.len() == 1);
                assert(t == 1);
            } else {
                assert((fs.len() - 1) * cap() < p.len()) by (nonlinear_arith)
                    requires
                        fs.len() == (p.len() + 127) / 128,
                        cap() == 128,
                        p.len() >= 1,
                ;
                assert((t - 1) * cap() <= (fs.len() - 1) * cap()) by (nonlinear_arith)
                    requires
                        t - 1 <= fs.len() - 1,
                        cap() >= 0,
                ;
                assert(false);
            }
        }
    }
}

/// The encoding of a payload is consistent and complete, and assembles
/// back to the payload.
proof fn lemma_encode_sound(p: Seq<u8>, tag: TypeTag)
    requires
        p.len() <= MAX_PAYLOAD_LEN,
    ensures
        frames_consistent(spec_encode(p, tag)),
        frames_complete(spec_encode(p, tag)),
        assembled_of(spec_encode(p, tag)) == p,
{
    let fs = spec_encode(p, tag);
    let n = spec_chunk_count(p.len() as int);
    if p.len() == 0 {
        assert(n == 1);
    } else {
        assert(n >= 1) by (nonlinear_arith)
            requires
                n == (p.len() as int + 127) / 128,
                p.len() >= 1,
        ;
    }
    assert(forall|j: int| 0 <= j < fs[0].total ==> has_index(fs, j)) by {
        assert forall|j: int| 0 <= j < fs[0].total implies has_index(fs, j) by {
            assert(fs[j].index == j);
        }
    }
    lemma_assembled_identity(fs, p, n);
    if p.len() > 0 {
        assert(n * cap() >= p.len()) by (nonlinear_arith)
            requires
                n == (p.len() + 127) / 128,
                cap() == 128,
                p.len() >= 1,
        ;
    }
    assert(p.subrange(0, p.len() as int) =~= p);
    if n * cap() <= p.len() {
        assert(p.subrange(0, n * cap()) =~= p);
    }
}

/// Codec round trip: decoding the encoding of any payload under the tag
/// it was encoded with yields exactly that payload, for single-frame and
/// multi-frame encodings alike.
pub proof fn lemma_codec_round_trip(p: Seq<u8>, tag: TypeTag)
    requires
        p.len() <= MAX_PAYLOAD_LEN,
    ensures
        spec_decode(spec_encode(p, tag), tag) == Ok::<Seq<u8>, TransportError>(p),
{
    lemma_encode_sound(p, tag);
}

/// A correctly assembled message whose declared tag differs from the
/// expected tag decodes to `UnexpectedType`, never to a payload.
pub proof fn lemma_unexpected_tag_rejected(p: Seq<u8>, tag: TypeTag, expected: TypeTag)
    requires
        p.len() <= MAX_PAYLOAD_LEN,
        expected != tag,
    ensures
        spec_decode(spec_encode(p, tag), expected) == Err::<Seq<u8>, TransportError>(
            TransportError::UnexpectedType,
        ),
{
    lemma_encode_sound(p, tag);
}

/// Altering the checksum of any one frame of an encoding makes decoding
/// fail as malformed, whatever tag the decoder expects: wrong bytes are
/// never silently produced.
pub proof fn lemma_tampered_checksum_rejected(
    p: Seq<u8>,
    tag: TypeTag,
    k: int,
    fs2: Seq<FrameView>,
    expected: TypeTag,
)
    requires
        p.len() <= MAX_PAYLOAD_LEN,
        0 <= k < spec_encode(p, tag).len(),
        fs2.len() == spec_encode(p, tag).len(),
        forall|j: int| 0 <= j < fs2.len() && j != k ==> fs2[j] == spec_encode(p, tag)[j],
        fs2[k].tag == tag,
        fs2[k].index == k,
        fs2[k].total == spec_encode(p, tag)[k].total,
        fs2[k].payload == spec_encode(p, tag)[k].payload,
        fs2[k].checksum != checksum_of(p),
    ensures
        spec_decode(fs2, expected) == Err::<Seq<u8>, TransportError>(TransportError::Malformed),
{
    let fs = spec_encode(p, tag);
    let n = fs.len();
    lemma_encode_sound(p, tag);
    if n == 1 {
        assert(k == 0);
        assert(frames_consistent(fs2));
        assert(forall|j: int| 0 <= j < fs2[0].total ==> has_index(fs2, j)) by {
            assert forall|j: int| 0 <= j < fs2[0].total implies has_index(fs2, j) by {
                assert(fs2[j].index == j);
            }
        }
        assert(forall|i: int|
            0 <= i < fs2.len() ==> (#[trigger] fs2[i]).index == i && fs2[i].payload == chunk_of(
                p,
                i,
            ));
        lemma_assembled_identity(fs2, p, n as int);
        if n as int * cap() <= p.len() {
            assert(p.subrange(0, n as int * cap()) =~= p);
        }
        assert(p.subrange(0, p.len() as int) =~= p);
        assert(assembled_of(fs2) == p);
        assert(checksum_of(assembled_of(fs2)) != fs2[0].checksum);
    } else {
        // Some other frame still carries the true checksum, so the set
        // disagrees with itself.
        if k == 0 {
            assert(fs2[1].checksum == checksum_of(p));
            assert(fs2[1].checksum != fs2[0].checksum);
        } else {
            assert(fs2[0].checksum == checksum_of(p));
            assert(fs2[k].checksum != fs2[0].checksum);
        }
        assert(!frames_consistent(fs2));
        assert(fs2.len() > 0);
    }
}

/// The byte that names a tag inside a frame's text rendering.
pub open spec fn tag_byte(t: TypeTag) -> u8 {
    match t {
        TypeTag::PublicKeyExport => 0x6b,
        TypeTag::SignRequest => 0x72,
        TypeTag::Signature => 0x73,
    }
}

pub open spec fn tag_of_byte(b: u8) -> Option<TypeTag> {
    if b == 0x6b {
        Some(TypeTag::PublicKeyExport)
    } else if b == 0x72 {
        Some(TypeTag::SignRequest)
    } else if b == 0x73 {
        Some(TypeTag::Signature)
    } else {
        None
    }
}

fn tag_byte_exec(t: TypeTag) -> (r: u8)
    ensures
        r == tag_byte(t),
{
    match t {
        TypeTag::PublicKeyExport => 0x6b,
        TypeTag::SignRequest => 0x72,
        TypeTag::Signature => 0x73,
    }
}

fn tag_of_byte_exec(b: u8) -> (r: Option<TypeTag>)
    ensures
        r == tag_of_byte(b),
{
    if b == 0x6b {
        Some(TypeTag::PublicKeyExport)
    } else if b == 0x72 {
        Some(TypeTag::SignRequest)
    } else if b == 0x73 {
        Some(TypeTag::Signature)
    } else {
        None
    }
}

proof fn lemma_pow256_small()
    ensures
        crate::hexutil::pow256(4) == 0x1_0000_0000,
        crate::hexutil::pow256(8) == 0x1_0000_0000_0000_0000,
{
    reveal_with_fuel(crate::hexutil::pow256, 9);
}

/// The binary layout behind a frame's text: tag byte, index, total,
/// checksum (big-endian, fixed widths), then the fragment payload.
pub open spec fn frame_raw_of(f: FrameView) -> Seq<u8> {
    seq![tag_byte(f.tag)] + crate::hexutil::be_bytes_of(f.index as nat, 4)
        + crate::hexutil::be_bytes_of(f.total as nat, 4) + crate::hexutil::be_bytes_of(
        f.checksum as nat,
        8,
    ) + f.payload
}

/// A frame rendered as scannable ASCII text: lowercase hex of its
/// binary layout.
pub open spec fn frame_text_of(f: FrameView) -> Seq<u8> {
    crate::hexutil::hex_of(frame_raw_of(f))
}

/// The frame a piece of scanned text denotes, if any.
pub open spec fn parse_frame_text(t: Seq<u8>) -> Option<FrameView> {
    if !crate::hexutil::is_hex_seq(t) {
        None
    } else {
        let raw = crate::hexutil::unhex(t);
        if raw.len() < 17 {
            None
        } else if tag_of_byte(raw[0]) is None {
            None
        } else {
            Some(
                (FrameView {
                    tag: tag_of_byte(raw[0])->0,
                    index: crate::hexutil::be_val(raw.subrange(1, 5)) as int,
                    total: crate::hexutil::be_val(raw.subrange(5, 9)) as int,
                    checksum: crate::hexutil::be_val(raw.subrange(9, 17)) as int,
                    payload: raw.subrange(17, raw.len() as int),
                }),
            )
        }
    }
}

/// Renders one frame as ASCII text for display as a visual code.
pub fn frame_to_text(f: &TransportFrame) -> (r: Vec<u8>)
    ensures
        r@ == frame_text_of(f@),
{
    proof {
        lemma_pow256_small();
    }
    let mut raw: Vec<u8> = Vec::new();
    raw.push(tag_byte_exec(f.tag));
    let mut ib = crate::hexutil::be_bytes(f.index as u128, 4);
    raw.append(&mut ib);
    let mut tb = crate::hexutil::be_bytes(f.total as u128, 4);
    raw.append(&mut tb);
    let mut cb = crate::hexutil::be_bytes(f.checksum as u128, 8);
    raw.append(&mut cb);
    let mut pb = vstd::slice::slice_to_vec(f.payload.as_slice());
    raw.append(&mut pb);
    proof {
        assert(raw@ =~= frame_raw_of(f@));
    }
    crate::hexutil::hex_encode(&raw)
}

/// Parses scanned text back into a frame; fails as malformed exactly
/// when the text does not denote a frame.
pub fn frame_from_text(text: &Vec<u8>) -> (r: Result<TransportFrame, TransportError>)
    ensures
        (match r {
            Ok(f) => parse_frame_text(text@) == Some(f@),
            Err(e) => parse_frame_text(text@) is None && e == TransportError::Malformed,
        }),
{
    proof {
        lemma_pow256_small();
    }
    let raw = match crate::hexutil::hex_decode(text) {
        Some(rw) => rw,
        None => {
            return Err(TransportError::Malformed);
        },
    };
    if raw.len() < 17 {
        return Err(TransportError::Malformed);
    }
    let tag = match tag_of_byte_exec(raw[0]) {
        Some(t) => t,
        None => {
            return Err(TransportError::Malformed);
        },
    };
    let ib = vstd::slice::slice_to_vec(vstd::slice::slice_subrange(raw.as_slice(), 1, 5));
    let tb = vstd::slice::slice_to_vec(vstd::slice::slice_subrange(raw.as_slice(), 5, 9));
    let cb = vstd::slice::slice_to_vec(vstd::slice::slice_subrange(raw.as_slice(), 9, 17));
    proof {
        crate::hexutil::lemma_be_val_bound(ib@);
        crate::hexutil::lemma_be_val_bound(tb@);
        crate::hexutil::lemma_be_val_bound(cb@);
    }
    let index = crate::hexutil::be_val_exec(&ib) as u32;
    let total = crate::hexutil::be_val_exec(&tb) as u32;
    let checksum = crate::hexutil::be_val_exec(&cb) as u64;
    let payload = vstd::slice::slice_to_vec(
        vstd::slice::slice_subrange(raw.as_slice(), 17, raw.len()),
    );
    let frame = TransportFrame { tag, index, total, checksum, payload };
    Ok(frame)
}

/// Rendering a frame as text and parsing the text back yields the same
/// frame, for every frame whose fields fit their wire widths.
pub proof fn lemma_frame_text_round_trip(f: FrameView)
    requires
        0 <= f.index < 0x1_0000_0000,
        0 <= f.total < 0x1_0000_0000,
        0 <= f.checksum < 0x1_0000_0000_0000_0000,
    ensures
        parse_frame_text(frame_text_of(f)) == Some(f),
{
    lemma_pow256_small();
    let raw = frame_raw_of(f);
    crate::hexutil::lemma_hex_roundtrip(raw);
    crate::hexutil::lemma_be_bytes_len(f.index as nat, 4);
    crate::hexutil::lemma_be_bytes_len(f.total as nat, 4);
    crate::hexutil::lemma_be_bytes_len(f.checksum as nat, 8);
    assert(raw.subrange(1, 5) =~= crate::hexutil::be_bytes_of(f.index as nat, 4));
    assert(raw.subrange(5, 9) =~= crate::hexutil::be_bytes_of(f.total as nat, 4));
    assert(raw.subrange(9, 17) =~= crate::hexutil::be_bytes_of(f.checksum as nat, 8));
    assert(raw.subrange(17, raw.len() as int) =~= f.payload);
    crate::hexutil::lemma_be_roundtrip(f.index as nat, 4);
    crate::hexutil::lemma_be_roundtrip(f.total as nat, 4);
    crate::hexutil::lemma_be_roundtrip(f.checksum as nat, 8);
}

/// Order-independent accumulator for frames as they are scanned.
///
/// Frames of one logical message may arrive in any order; the
/// accumulator only collects them, and `message` decodes exactly as the
/// pure `decode` does, so no partial state leaks from one message into
/// the next once a fresh accumulator is used.
pub struct Reassembler {
    frames: Vec<TransportFrame>,
}

impl Reassembler {
    /// The frames received so far, in arrival order.
    pub closed spec fn model(&self) -> Seq<FrameView> {
        frames_view(self.frames@)
    }

    /// A fresh accumulator holding nothing.
    pub fn new() -> (r: Reassembler)
        ensures
            r.model() == Seq::<FrameView>::empty(),
    {
        let r = Reassembler { frames: Vec::new() };
        proof {
            assert(r.model() =~= Seq::<FrameView>::empty());
        }
        r
    }

    /// Records one scanned frame.
    pub fn receive(&mut self, frame: TransportFrame)
        ensures
            final(self).model() == old(self).model().push(frame@),
    {
        let ghost before = self.model();
        self.frames.push(frame);
        proof {
            assert(self.model() =~= before.push(frame@));
        }
    }

    /// Whether every fragment index of the declared total has arrived.
    pub fn complete(&self) -> (b: bool)
        ensures
            b == frames_complete(self.model()),
    {
        if self.frames.len() == 0 {
            return false;
        }
        let total0 = self.frames[0].total;
        let mut j: u32 = 0;
        while j < total0
            invariant
                self.model().len() == self.frames@.len() > 0,
                total0 as int == self.model()[0].total,
                j <= total0,
                forall|j2: int| 0 <= j2 < j ==> has_index(self.model(), j2),
            decreases total0 - j,
        {
            match find_first(&self.frames, j) {
                Some(_) => {},
                None => {
                    proof {
                        assert(!has_index(self.model(), j as int));
                    }
                    return false;
                },
            }
            j = j + 1;
        }
        true
    }

    /// Decodes the received frames, expecting `expected`; the outcome is
    /// exactly that of the pure decoder on the arrival sequence.
    pub fn message(&self, expected: TypeTag) -> (r: Result<Vec<u8>, TransportError>)
        ensures
            (match r {
                Ok(v) => spec_decode(self.model(), expected) == Ok::<Seq<u8>, TransportError>(v@),
                Err(e) => spec_decode(self.model(), expected) == Err::<Seq<u8>, TransportError>(e),
            }),
    {
        decode(&self.frames, expected)
    }
}

} // verus!
