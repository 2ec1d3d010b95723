use vstd::prelude::*;

verus! {

/// The dimensions and RGB8 samples of an image.
pub type RasterView = (u32, u32, Seq<u8>);

/// A decoded image: three bytes (red, green, blue) per pixel, row by row.
#[derive(Clone, Debug)]
pub struct Raster {
    pub width: u32,
    pub height: u32,
    pub pixels: Vec<u8>,
}

/// The samples fill the image exactly.
pub open spec fn view_wf(v: RasterView) -> bool {
    v.2.len() == 3 * v.0 * v.1
}

impl Raster {
    pub open spec fn view(&self) -> RasterView {
        (self.width, self.height, self.pixels@)
    }

    pub open spec fn wf(&self) -> bool {
        view_wf(self.view())
    }
}

pub open spec fn view_opt(o: Option<Raster>) -> Option<RasterView> {
    match o {
        Some(r) => Some(r.view()),
        None => None,
    }
}

/// Keeps a decoded image only where its samples fill it exactly.
pub open spec fn well_formed_only(o: Option<RasterView>) -> Option<RasterView> {
    match o {
        Some(v) => if view_wf(v) { Some(v) } else { None },
        None => None,
    }
}

/// Builds an image from RGB8 samples, where they fill it exactly.
pub fn raster_from_samples(width: u32, height: u32, pixels: Vec<u8>) -> (r: Option<Raster>)
    ensures
        view_opt(r) == well_formed_only(Some((width, height, pixels@))),
{
    let w = width as u64;
    let h = height as u64;
    assert(w * h <= 0xffff_ffff_ffff_ffff) by (nonlinear_arith)
        requires w <= 0xffff_ffff, h <= 0xffff_ffff;
    let wh = w * h;
    let n = pixels.len();
    if wh > 0x5555_5555_5555_5555 {
        assert(3 * (width as int) * (height as int) > 0xffff_ffff_ffff_ffff) by (nonlinear_arith)
            requires wh == w * h, wh > 0x5555_5555_5555_5555, w == width, h == height;
        return None;
    }
    let needed = 3 * wh;
    assert(needed == 3 * width * height) by (nonlinear_arith)
        requires needed == 3 * wh, wh == w * h, w == width, h == height;
    if n as u64 != needed {
        return None;
    }
    Some(Raster { width, height, pixels })
}

/// Each sample keeps its high byte.
pub open spec fn high_bytes(s: Seq<u16>) -> Seq<u8> {
    Seq::new(s.len(), |i: int| (s[i] / 256) as u8)
}

/// Reduces 16-bit samples to 8-bit ones by discarding the low byte.
pub fn reduce_to_8bit(samples: &Vec<u16>) -> (r: Vec<u8>)
    ensures
        r@ == high_bytes(samples@),
{
    let mut out: Vec<u8> = Vec::with_capacity(samples.len());
    let mut i: usize = 0;
    while i < samples.len()
        invariant
            i <= samples@.len(),
            out@ =~= high_bytes(samples@.subrange(0, i as int)),
        decreases samples@.len() - i,
    {
        let x: u16 = samples[i];
        assert(x >> 8 == x / 256) by (bit_vector);
        out.push((x >> 8) as u8);
        i = i + 1;
        assert(out@ =~= high_bytes(samples@.subrange(0, i as int)));
    }
    assert(samples@.subrange(0, i as int) =~= samples@);
    out
}

} // verus!
