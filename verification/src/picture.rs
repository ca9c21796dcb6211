//! Frame buffers: owned pixel-plane storage for one frame, sized by the
//! colorspace table, with bounds-checked plane access.
//!
//! A buffer is allocated from a configuration snapshot — it captures the
//! width, height and colorspace at that moment and keeps only the per-plane
//! byte sizes it derived from them. Ownership is exclusive; the storage is
//! freed with the value on every exit path.

use vstd::prelude::*;
use crate::Error;
use crate::colorspace::{
    Colorspace, MAX_DIM, lemma_total_plane_size, plane_count, plane_size_u64,
    spec_bytes_per_sample, spec_dims_aligned, spec_double_samples_per_pixel, spec_plane_count,
    spec_plane_size, spec_total_size,
};
use crate::param::Param;

verus! {

/// The mathematical state of a frame buffer.
pub ghost struct PictureView {
    /// Pixel format of the frame.
    pub csp: Colorspace,
    /// Whether samples take two bytes instead of one.
    pub high_depth: bool,
    /// Frame width in pixels.
    pub width: usize,
    /// Frame height in pixels.
    pub height: usize,
    /// Presentation timestamp stamped on the frame.
    pub pts: i64,
    /// The bytes of each plane, one sequence per plane.
    pub planes: Seq<Seq<u8>>,
}

impl PictureView {
    /// A well-formed buffer has one byte sequence per plane of its
    /// colorspace, each of exactly the size the table derives.
    pub open spec fn wf(self) -> bool {
        &&& 1 <= self.width <= MAX_DIM
        &&& 1 <= self.height <= MAX_DIM
        &&& self.planes.len() == spec_plane_count(self.csp)
        &&& forall|i: int|
            0 <= i < self.planes.len() ==> (#[trigger] self.planes[i]).len() == spec_plane_size(
                self.csp,
                self.high_depth,
                self.width as int,
                self.height as int,
                i,
            )
    }

    /// This buffer with the bytes of plane `i` replaced.
    pub open spec fn with_plane(self, i: int, data: Seq<u8>) -> PictureView {
        PictureView { planes: self.planes.update(i, data), ..self }
    }
}

/// Whether a configuration's dimensions allow allocating a frame: both
/// positive and neither above `MAX_DIM`.
pub open spec fn spec_dims_allocatable(width: usize, height: usize) -> bool {
    &&& 1 <= width <= MAX_DIM
    &&& 1 <= height <= MAX_DIM
}

/// Whether every plane size of such a frame fits the machine's word, so
/// that the plane buffers are addressable.
pub open spec fn spec_sizes_fit(csp: Colorspace, high_depth: bool, width: usize, height: usize) -> bool {
    forall|i: int|
        0 <= i < 3 ==> spec_plane_size(csp, high_depth, width as int, height as int, i)
            <= usize::MAX
}

/// A frame buffer holding one frame's pixel planes.
pub struct Picture {
    planes: Vec<Vec<u8>>,
    csp: Colorspace,
    high_depth: bool,
    width: usize,
    height: usize,
    pts: i64,
}

impl View for Picture {
    type V = PictureView;

    closed spec fn view(&self) -> PictureView {
        PictureView {
            csp: self.csp,
            high_depth: self.high_depth,
            width: self.width,
            height: self.height,
            pts: self.pts,
            planes: Seq::new(self.planes@.len(), |i: int| self.planes@[i]@),
        }
    }
}

impl Picture {
    /// Allocates a zero-filled frame buffer sized to the configuration's
    /// width, height and colorspace. Fails with `AllocationFailure` exactly
    /// when the dimensions are outside the supported range or a plane's
    /// byte size does not fit the machine's word.
    pub fn from_param(param: &Param) -> (r: Result<Picture, Error>)
        ensures
            r is Ok <==> (spec_dims_allocatable(param@.width, param@.height) && spec_sizes_fit(
                param@.csp,
                param@.high_depth,
                param@.width,
                param@.height,
            )),
            r matches Err(e) ==> e == Error::AllocationFailure,
            r matches Ok(pic) ==> {
                &&& pic@.wf()
                &&& pic@.csp == param@.csp
                &&& pic@.high_depth == param@.high_depth
                &&& pic@.width == param@.width
                &&& pic@.height == param@.height
                &&& pic@.pts == 0i64
                &&& forall|i: int|
                    0 <= i < pic@.planes.len() ==> #[trigger] pic@.planes[i] == Seq::new(
                        spec_plane_size(
                            param@.csp,
                            param@.high_depth,
                            param@.width as int,
                            param@.height as int,
                            i,
                        ) as nat,
                        |j: int| 0u8,
                    )
            },
    {
        let width = param.width();
        let height = param.height();
        let csp = param.colorspace();
        let high_depth = param.high_depth();
        if width < 1 || width > MAX_DIM || height < 1 || height > MAX_DIM {
            return Err(Error::AllocationFailure);
        }
        let mut sizes: Vec<usize> = Vec::new();
        let mut i: usize = 0;
        while i < 3
            invariant
                i <= 3,
                sizes@.len() == i,
                width == param@.width,
                height == param@.height,
                csp == param@.csp,
                high_depth == param@.high_depth,
                spec_dims_allocatable(width, height),
                forall|k: int|
                    0 <= k < i ==> sizes@[k] == spec_plane_size(
                        csp,
                        high_depth,
                        width as int,
                        height as int,
                        k,
                    ),
            decreases 3 - i,
        {
            let s = plane_size_u64(csp, high_depth, width, height, i);
            if s > usize::MAX as u64 {
                proof {
                    assert(spec_plane_size(csp, high_depth, width as int, height as int, i as int)
                        > usize::MAX);
                    assert(!spec_sizes_fit(csp, high_depth, width, height));
                }
                return Err(Error::AllocationFailure);
            }
            sizes.push(s as usize);
            i += 1;
        }
        let count = plane_count(csp);
        let mut planes: Vec<Vec<u8>> = Vec::new();
        let mut p: usize = 0;
        while p < count
            invariant
                p <= count,
                count == spec_plane_count(csp),
                planes@.len() == p,
                sizes@.len() == 3,
                count <= 3,
                width == param@.width,
                height == param@.height,
                csp == param@.csp,
                high_depth == param@.high_depth,
                spec_dims_allocatable(width, height),
                forall|k: int|
                    0 <= k < 3 ==> sizes@[k] == spec_plane_size(
                        csp,
                        high_depth,
                        width as int,
                        height as int,
                        k,
                    ),
                forall|k: int|
                    0 <= k < p ==> (#[trigger] planes@[k])@ == Seq::new(
                        spec_plane_size(csp, high_depth, width as int, height as int, k) as nat,
                        |j: int| 0u8,
                    ),
            decreases count - p,
        {
            let buf: Vec<u8> = vec![0u8; sizes[p]];
            planes.push(buf);
            p += 1;
        }
        let pic = Picture { planes, csp, high_depth, width, height, pts: 0 };
        proof {
            assert forall|i: int| 0 <= i < 3 implies spec_plane_size(
                csp,
                high_depth,
                width as int,
                height as int,
                i,
            ) <= usize::MAX by {
                assert(sizes@[i] == spec_plane_size(
                    csp,
                    high_depth,
                    width as int,
                    height as int,
                    i,
                ));
            }
            assert(spec_sizes_fit(csp, high_depth, width, height));
            assert forall|i: int| 0 <= i < pic@.planes.len() implies (#[trigger] pic@.planes[i])
                == Seq::new(
                spec_plane_size(csp, high_depth, width as int, height as int, i) as nat,
                |j: int| 0u8,
            ) by {
                assert(pic@.planes[i] == pic.planes@[i]@);
            }
        }
        Ok(pic)
    }

    /// How many planes this buffer carries.
    pub fn plane_count(&self) -> (r: usize)
        requires
            self@.wf(),
        ensures
            r == spec_plane_count(self@.csp),
    {
        self.planes.len()
    }

    /// A read-only view of plane `plane`: exactly that plane's bytes. An
    /// index at or past the plane count fails with `InvalidArgument`.
    pub fn as_slice(&self, plane: usize) -> (r: Result<&[u8], Error>)
        requires
            self@.wf(),
        ensures
            r is Ok <==> plane < spec_plane_count(self@.csp),
            r matches Err(e) ==> e == Error::InvalidArgument,
            r matches Ok(s) ==> s@ == self@.planes[plane as int],
    {
        if plane >= self.planes.len() {
            Err(Error::InvalidArgument)
        } else {
            Ok(self.planes[plane].as_slice())
        }
    }

    /// Overwrites plane `plane` with `data`. An index at or past the plane
    /// count, or data whose length is not exactly the plane's size, fails
    /// with `InvalidArgument` and leaves the buffer unchanged.
    pub fn write_plane(&mut self, plane: usize, data: &[u8]) -> (r: Result<(), Error>)
        requires
            old(self)@.wf(),
        ensures
            final(self)@.wf(),
            r is Ok <==> (plane < spec_plane_count(old(self)@.csp) && data@.len()
                == spec_plane_size(
                old(self)@.csp,
                old(self)@.high_depth,
                old(self)@.width as int,
                old(self)@.height as int,
                plane as int,
            )),
            r matches Err(e) ==> e == Error::InvalidArgument && final(self)@ == old(self)@,
            r is Ok ==> final(self)@ == old(self)@.with_plane(plane as int, data@),
    {
        proof {
            assert(self@.planes.len() == self.planes@.len());
        }
        if plane >= self.planes.len() {
            return Err(Error::InvalidArgument);
        }
        let expected = self.planes[plane].len();
        proof {
            assert(self@.planes[plane as int] == self.planes@[plane as int]@);
        }
        if data.len() != expected {
            return Err(Error::InvalidArgument);
        }
        let mut buf: Vec<u8> = Vec::new();
        buf.extend_from_slice(data);
        proof {
            assert(buf@ =~= data@);
        }
        self.planes.set(plane, buf);
        proof {
            assert(self@.planes =~= old(self)@.planes.update(plane as int, data@));
            assert(self@ == old(self)@.with_plane(plane as int, data@));
            let v = old(self)@.with_plane(plane as int, data@);
            assert forall|i: int| 0 <= i < v.planes.len() implies (#[trigger] v.planes[i]).len()
                == spec_plane_size(v.csp, v.high_depth, v.width as int, v.height as int, i) by {
                if i != plane as int {
                    assert(v.planes[i] == old(self)@.planes[i]);
                }
            }
            assert(v.wf());
        }
        Ok(())
    }

    /// Stamps the frame with a presentation timestamp.
    pub fn set_timestamp(self, pts: i64) -> (r: Picture)
        ensures
            r@ == (PictureView { pts: pts, ..self@ }),
            self@.wf() ==> r@.wf(),
    {
        let mut pic = self;
        pic.pts = pts;
        pic
    }

    /// The presentation timestamp stamped on the frame.
    pub fn timestamp(&self) -> (r: i64)
        ensures
            r == self@.pts,
    {
        self.pts
    }

    /// Frame width in pixels.
    pub fn width(&self) -> (r: usize)
        ensures
            r == self@.width,
    {
        self.width
    }

    /// Frame height in pixels.
    pub fn height(&self) -> (r: usize)
        ensures
            r == self@.height,
    {
        self.height
    }
}

/// The number of bytes a stack of plane buffers owns in all.
pub open spec fn spec_owned_bytes(planes: Seq<Seq<u8>>) -> int
    decreases planes.len(),
{
    if planes.len() == 0 {
        0
    } else {
        spec_owned_bytes(planes.drop_last()) + planes.last().len()
    }
}

/// Law: the plane buffers of a well-formed frame with subsampling-aligned
/// dimensions sum to width times height times bytes-per-sample times the
/// colorspace's samples-per-pixel factor (stated doubled to stay in
/// integers): three halves of a pixel's bytes for 4:2:0, two for 4:2:2,
/// three for 4:4:4 and the packed three-byte formats, four for the packed
/// four-byte format.
pub proof fn lemma_allocator_total_size(v: PictureView)
    requires
        v.wf(),
        spec_dims_aligned(v.csp, v.width as int, v.height as int),
    ensures
        2 * spec_owned_bytes(v.planes) == v.width * v.height * spec_bytes_per_sample(v.high_depth)
            * spec_double_samples_per_pixel(v.csp),
{
    reveal_with_fuel(spec_owned_bytes, 4);
    let w = v.width as int;
    let h = v.height as int;
    let s = v.planes;
    assert(spec_owned_bytes(Seq::<Seq<u8>>::empty()) == 0);
    if s.len() == 1 {
        assert(s.drop_last() =~= Seq::<Seq<u8>>::empty());
        assert(spec_owned_bytes(s) == s[0].len());
        assert(spec_plane_size(v.csp, v.high_depth, w, h, 1) == 0);
        assert(spec_plane_size(v.csp, v.high_depth, w, h, 2) == 0);
    } else if s.len() == 2 {
        assert(s.drop_last().drop_last() =~= Seq::<Seq<u8>>::empty());
        assert(s.drop_last().last() == s[0]);
        assert(spec_owned_bytes(s) == s[0].len() + s[1].len());
        assert(spec_plane_size(v.csp, v.high_depth, w, h, 2) == 0);
    } else {
        assert(s.len() == 3);
        assert(s.drop_last().drop_last().drop_last() =~= Seq::<Seq<u8>>::empty());
        assert(s.drop_last().drop_last().last() == s[0]);
        assert(s.drop_last().last() == s[1]);
        assert(spec_owned_bytes(s) == s[0].len() + s[1].len() + s[2].len());
    }
    assert(spec_owned_bytes(s) == spec_total_size(v.csp, v.high_depth, w, h));
    lemma_total_plane_size(v.csp, v.high_depth, w, h);
}

/// Law: writing a plane and then reading the same plane index observes
/// exactly the written bytes, and writing keeps the buffer well-formed.
pub proof fn lemma_write_then_read(pre: PictureView, plane: int, data: Seq<u8>)
    requires
        pre.wf(),
        0 <= plane < spec_plane_count(pre.csp),
        data.len() == spec_plane_size(
            pre.csp,
            pre.high_depth,
            pre.width as int,
            pre.height as int,
            plane,
        ),
    ensures
        pre.with_plane(plane, data).planes[plane] == data,
        pre.with_plane(plane, data).wf(),
{
}

} // verus!
