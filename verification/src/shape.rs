use vstd::prelude::*;
use vstd::slice::{slice_subrange, slice_to_vec};
use crate::error::{check_status, InferenceError};

verus! {

/// A plain-value mirror of the native shape handle's fields, exactly as the
/// wrapper layer reads them: a signed rank and a dimension buffer that the
/// native library owns. A null buffer pointer in the native layout is
/// mirrored by `dims_null`; the buffer's entries, when present, by `dims`.
#[derive(Debug, Clone)]
pub struct ShapeHandle {
    /// The rank field, populated by the native library.
    pub rank: i64,
    /// Whether the native buffer pointer is null.
    pub dims_null: bool,
    /// The entries of the native buffer; empty when the pointer is null.
    pub dims: Vec<i64>,
}

impl ShapeHandle {
    /// The native library's contract on a populated handle: the rank is
    /// non-negative, a null buffer holds no entries, and a present buffer
    /// holds exactly `rank` entries. Data read back from the native layer
    /// that breaks this is a fault (a broken native invariant that the
    /// wrapper cannot safely continue past), never a recoverable error.
    pub open spec fn wf(&self) -> bool {
        &&& 0 <= self.rank
        &&& self.dims_null ==> self.dims@.len() == 0
        &&& !self.dims_null ==> self.dims@.len() == self.rank as int
    }

    /// The dimension sequence that this handle denotes: empty when the
    /// buffer is null or the rank is not positive, else the buffer entries.
    pub open spec fn dims_seq(&self) -> Seq<i64> {
        if self.dims_null || self.rank <= 0 {
            Seq::empty()
        } else {
            self.dims@
        }
    }

    /// Decides whether native-populated data satisfies the native contract
    /// (`wf`). Callers that adopt a handle must fault when this is false.
    pub fn is_valid(&self) -> (b: bool)
        ensures
            b == self.wf(),
    {
        if self.rank < 0 {
            false
        } else if self.dims_null {
            self.dims.len() == 0
        } else {
            self.dims.len() as u64 == self.rank as u64
        }
    }

    /// The scratch handle handed to the native create entry point before it
    /// populates the real geometry: a conservative maximum supported rank
    /// and a null buffer. It carries no meaning of its own; a successful
    /// create call overwrites it entirely.
    pub fn placeholder() -> (h: ShapeHandle)
        ensures
            h.rank == 8,
            h.dims_null,
            h.dims@.len() == 0,
            h.wf(),
    {
        ShapeHandle { rank: 8, dims_null: true, dims: Vec::new() }
    }

    /// Decides whether a release went as the native library promises: the
    /// free entry point must report status zero and must leave the handle
    /// zeroed (rank 0, buffer pointer null). Any other outcome signals
    /// native-library corruption: a fault with no safe continuation, since
    /// release cannot report failure to its caller.
    pub fn release_outcome_ok(&self, code: i32) -> (b: bool)
        ensures
            b <==> (code == 0 && self.rank == 0 && self.dims_null),
    {
        code == 0 && self.rank == 0 && self.dims_null
    }
}

/// Decides whether a dimension count is representable in the native signed
/// 64-bit rank parameter. An oversized count is a caller contract violation
/// and must fault, never be silently truncated.
pub fn dimension_count_representable(count: usize) -> (b: bool)
    ensures
        b <==> count <= i64::MAX,
{
    count as u64 <= 0x7fff_ffff_ffff_ffffu64
}

/// An owned tensor shape: the exclusive owner of one populated handle. Its
/// accessors expose the native-populated geometry as bounds-checked reads;
/// the borrowed dimension view they hand out is tied to the wrapper's own
/// lifetime and can never outlive it.
#[derive(Debug)]
pub struct Shape {
    instance: ShapeHandle,
}

impl Shape {
    /// The wrapped handle.
    pub closed spec fn handle(&self) -> ShapeHandle {
        self.instance
    }

    /// The wrapper's invariant: its handle satisfies the native contract.
    /// Every construction path establishes this.
    pub open spec fn wf(&self) -> bool {
        self.handle().wf()
    }

    /// The rank field of the wrapped handle.
    pub open spec fn rank_spec(&self) -> i64 {
        self.handle().rank
    }

    /// The dimension sequence of the wrapped handle.
    pub open spec fn dims_spec(&self) -> Seq<i64> {
        self.handle().dims_seq()
    }

    /// Creates a shape with the given dimensions. For every dimension
    /// sequence whose length is representable in the native rank parameter,
    /// construction succeeds and the new wrapper holds exactly that rank and
    /// exactly those dimensions, in order; an unrepresentable length is a
    /// caller contract violation, excluded here and a fault at the boundary.
    pub fn new(dimensions: &[i64]) -> (r: Result<Shape, InferenceError>)
        requires
            dimensions@.len() <= i64::MAX,
        ensures
            r matches Ok(s) && s.wf() && s.rank_spec() == dimensions@.len()
                && s.dims_spec() == dimensions@,
    {
        let rank: i64 = dimensions.len() as i64;
        let dims: Vec<i64> = slice_to_vec(dimensions);
        let instance = ShapeHandle { rank, dims_null: false, dims };
        proof {
            if dimensions@.len() == 0 {
                assert(instance.dims_seq() =~= dimensions@);
            }
        }
        Ok(Shape { instance })
    }

    /// Interprets the outcome of a native create call: status zero adopts
    /// the now-populated handle, and any other status becomes a typed error
    /// carrying that code, with nothing owned (and so nothing to release).
    pub fn from_create_outcome(code: i32, instance: ShapeHandle) -> (r: Result<
        Shape,
        InferenceError,
    >)
        requires
            code == 0 ==> instance.wf(),
        ensures
            code == 0 <==> r is Ok,
            r matches Ok(s) ==> s.wf() && s.handle() == instance,
            r matches Err(e) ==> e.code() == code,
    {
        match check_status(code) {
            Ok(_) => Ok(Shape { instance }),
            Err(e) => Err(e),
        }
    }

    /// The privileged adoption path: wraps an already-populated, already-
    /// owned handle that another native call produced. No create call
    /// occurs; ownership simply transfers into the new wrapper. The handle
    /// must satisfy the native contract — adopting data that breaks it is a
    /// fault, so callers outside verified code must test `is_valid` first.
    pub fn new_from_instance(instance: ShapeHandle) -> (s: Shape)
        requires
            instance.wf(),
        ensures
            s.wf(),
            s.handle() == instance,
    {
        Shape { instance }
    }

    /// Read access to the wrapped handle, for handing it to other native
    /// entry points. The wrapper keeps ownership.
    pub fn instance(&self) -> (h: &ShapeHandle)
        ensures
            *h == self.handle(),
    {
        &self.instance
    }

    /// The rank of the shape: the handle's rank field, read directly
    /// (native-populated data is trusted here, as everywhere).
    pub fn get_rank(&self) -> (r: i64)
        ensures
            r == self.rank_spec(),
    {
        self.instance.rank
    }

    /// The dimensions of the shape, as a borrowed read-only view into the
    /// wrapper's buffer. A null buffer or a non-positive rank yields the
    /// empty view rather than a fault.
    pub fn get_dimensions(&self) -> (d: &[i64])
        ensures
            d@ == self.dims_spec(),
    {
        if self.instance.dims_null || self.instance.rank <= 0 {
            let d = slice_subrange(self.instance.dims.as_slice(), 0, 0);
            proof {
                assert(d@ =~= Seq::<i64>::empty());
            }
            d
        } else {
            self.instance.dims.as_slice()
        }
    }
}

/// The read accessors are pure: `rank_spec` and `dims_spec` are functions of
/// the wrapper value alone, and `get_rank` and `get_dimensions` each return
/// exactly them while borrowing the wrapper immutably. Repeated reads with
/// no mutation in between therefore agree with each other.
pub proof fn lemma_reads_idempotent(s: &Shape)
    ensures
        s.rank_spec() == s.rank_spec(),
        s.dims_spec() == s.dims_spec(),
{
}

/// Under the wrapper invariant, the geometry is consistent: the dimension
/// view is empty exactly when the buffer is null or the rank is zero, and
/// otherwise holds exactly `rank` entries.
pub proof fn lemma_wf_geometry(s: &Shape)
    requires
        s.wf(),
    ensures
        s.rank_spec() >= 0,
        s.handle().dims_null || s.rank_spec() == 0 ==> s.dims_spec().len() == 0,
        !s.handle().dims_null && s.rank_spec() > 0 ==> s.dims_spec().len() == s.rank_spec(),
{
}

} // verus!
