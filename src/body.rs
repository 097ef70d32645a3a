use vstd::prelude::*;
use vstd::slice::slice_to_vec;

verus! {

/// The largest request body, in bytes, that one receive call aggregates: 4 MiB.
pub const MAX_BODY_SIZE: usize = 4194304;

/// The bytes of a sequence of frames, in order.
pub open spec fn concat(frames: Seq<Seq<u8>>) -> Seq<u8>
    decreases frames.len(),
{
    if frames.len() == 0 {
        Seq::empty()
    } else {
        concat(frames.drop_last()) + frames.last()
    }
}

pub proof fn lemma_concat_prefix_len(frames: Seq<Seq<u8>>, i: int)
    requires
        0 <= i <= frames.len(),
    ensures
        concat(frames.take(i)).len() <= concat(frames).len(),
    decreases frames.len() - i,
{
    if i < frames.len() {
        lemma_concat_prefix_len(frames, i + 1);
        assert(frames.take(i + 1).drop_last() =~= frames.take(i));
    } else {
        assert(frames.take(i) =~= frames);
    }
}

/// A payload held as the frames in which it arrived.
#[derive(Debug)]
pub struct Body {
    pub frames: Vec<Vec<u8>>,
}

impl View for Body {
    type V = Seq<Seq<u8>>;

    open spec fn view(&self) -> Seq<Seq<u8>> {
        self.frames@.map_values(|f: Vec<u8>| f@)
    }
}

/// Why a bounded aggregation of a body failed.
#[derive(PartialEq, Eq, Structural, Clone, Copy, Debug)]
pub enum BodyError {
    LengthLimitExceeded,
}

/// Appends `src` to `dst`.
pub fn append_bytes(dst: &mut Vec<u8>, src: &[u8])
    ensures
        final(dst)@ == old(dst)@ + src@,
{
    let mut i: usize = 0;
    while i < src.len()
        invariant
            i <= src@.len(),
            dst@ == old(dst)@ + src@.take(i as int),
        decreases src@.len() - i,
    {
        dst.push(src[i]);
        i = i + 1;
        assert(src@.take(i as int) =~= src@.take(i - 1) + seq![src@[i - 1]]);
    }
    assert(src@.take(i as int) =~= src@);
}

impl Body {
    /// An empty body.
    pub fn empty() -> (r: Body)
        ensures
            r@ == Seq::<Seq<u8>>::empty(),
            concat(r@) == Seq::<u8>::empty(),
    {
        let r = Body { frames: Vec::new() };
        assert(r@ =~= Seq::<Seq<u8>>::empty());
        r
    }

    /// A body of one frame holding `bytes`.
    pub fn from_bytes(bytes: Vec<u8>) -> (r: Body)
        ensures
            r@ == seq![bytes@],
            concat(r@) == bytes@,
    {
        let mut frames: Vec<Vec<u8>> = Vec::new();
        frames.push(bytes);
        let r = Body { frames };
        assert(r@ =~= seq![bytes@]);
        assert(r@.drop_last() =~= Seq::<Seq<u8>>::empty());
        assert(concat(Seq::<Seq<u8>>::empty()) == Seq::<u8>::empty());
        assert(concat(r@) =~= bytes@);
        r
    }

    /// A body of one frame holding a copy of `bytes`.
    pub fn from_slice(bytes: &[u8]) -> (r: Body)
        ensures
            r@ == seq![bytes@],
            concat(r@) == bytes@,
    {
        Body::from_bytes(slice_to_vec(bytes))
    }

    /// Adds a frame at the end of the body.
    pub fn push_frame(&mut self, frame: Vec<u8>)
        ensures
            final(self)@ == old(self)@.push(frame@),
    {
        self.frames.push(frame);
        assert(self@ =~= old(self)@.push(frame@));
    }

    /// All bytes of the body, frame after frame.
    pub fn into_bytes(self) -> (r: Vec<u8>)
        ensures
            r@ == concat(self@),
    {
        let ghost frames = self@;
        let mut out: Vec<u8> = Vec::new();
        let mut i: usize = 0;
        while i < self.frames.len()
            invariant
                frames == self@,
                i <= frames.len(),
                out@ == concat(frames.take(i as int)),
            decreases frames.len() - i,
        {
            assert(frames.take(i + 1).drop_last() =~= frames.take(i as int));
            append_bytes(&mut out, self.frames[i].as_slice());
            i = i + 1;
        }
        assert(frames.take(i as int) =~= frames);
        out
    }

    /// Total number of bytes over all frames.
    pub open spec fn len(&self) -> nat {
        concat(self@).len()
    }
}

/// Converts between payload representations. Here it converts between
/// the library's `Body` and plain bytes: a body into all its bytes, and
/// bytes into a body of one frame. Conversions to a transport's own body
/// type belong to the code that owns that type.
pub trait IntoBody: Sized {
    type Target;

    /// Whether `dst` is what converting `src` gives.
    spec fn converts_to(src: Self, dst: Self::Target) -> bool;

    fn into_body(self) -> (r: Self::Target)
        ensures
            Self::converts_to(self, r),
    ;
}

impl IntoBody for Body {
    type Target = Vec<u8>;

    /// The bytes of every frame, in order.
    open spec fn converts_to(src: Body, dst: Vec<u8>) -> bool {
        dst@ == concat(src@)
    }

    fn into_body(self) -> (r: Vec<u8>) {
        self.into_bytes()
    }
}

impl IntoBody for Vec<u8> {
    type Target = Body;

    /// One frame holding the bytes.
    open spec fn converts_to(src: Vec<u8>, dst: Body) -> bool {
        dst@ == seq![src@]
    }

    fn into_body(self) -> (r: Body) {
        Body::from_bytes(self)
    }
}

/// Aggregates frames into one buffer, refusing to grow past a byte limit.
pub struct BodyCollector {
    limit: usize,
    data: Vec<u8>,
}

impl BodyCollector {
    pub closed spec fn limit(&self) -> usize {
        self.limit
    }

    pub closed spec fn data(&self) -> Seq<u8> {
        self.data@
    }

    pub open spec fn wf(&self) -> bool {
        self.data().len() <= self.limit()
    }

    /// A collector with nothing read yet.
    pub fn new(limit: usize) -> (r: BodyCollector)
        ensures
            r.wf(),
            r.limit() == limit,
            r.data() == Seq::<u8>::empty(),
    {
        BodyCollector { limit, data: Vec::new() }
    }

    /// Takes in one frame. Fails, keeping what was read, when the frame
    /// would carry the total past the limit.
    pub fn push(&mut self, frame: &[u8]) -> (r: Result<(), BodyError>)
        requires
            old(self).wf(),
        ensures
            final(self).wf(),
            final(self).limit() == old(self).limit(),
            r is Ok <==> old(self).data().len() + frame@.len() <= old(self).limit(),
            r is Ok ==> final(self).data() == old(self).data() + frame@,
            r is Err ==> final(self).data() == old(self).data()
                && r == Err::<(), BodyError>(BodyError::LengthLimitExceeded),
    {
        if frame.len() > self.limit - self.data.len() {
            Err(BodyError::LengthLimitExceeded)
        } else {
            append_bytes(&mut self.data, frame);
            Ok(())
        }
    }

    /// The bytes read so far.
    pub fn into_bytes(self) -> (r: Vec<u8>)
        ensures
            r@ == self.data(),
    {
        self.data
    }
}

/// Reads the whole body into one buffer, failing when it holds more than
/// `limit` bytes.
pub fn to_bytes(body: Body, limit: usize) -> (r: Result<Vec<u8>, BodyError>)
    ensures
        r is Ok <==> body.len() <= limit,
        r matches Ok(v) ==> v@ == concat(body@),
        r is Err ==> r == Err::<Vec<u8>, BodyError>(BodyError::LengthLimitExceeded),
{
    let ghost frames = body@;
    let mut collector = BodyCollector::new(limit);
    let mut i: usize = 0;
    while i < body.frames.len()
        invariant
            frames == body@,
            i <= frames.len(),
            collector.wf(),
            collector.limit() == limit,
            collector.data() == concat(frames.take(i as int)),
        decreases frames.len() - i,
    {
        assert(frames.take(i + 1).drop_last() =~= frames.take(i as int));
        assert(frames[i as int] == body.frames[i as int]@);
        match collector.push(body.frames[i].as_slice()) {
            Ok(()) => {},
            Err(e) => {
                proof {
                    lemma_concat_prefix_len(frames, i + 1);
                }
                return Err(e);
            },
        }
        i = i + 1;
    }
    assert(frames.take(i as int) =~= frames);
    Ok(collector.into_bytes())
}

} // verus!
