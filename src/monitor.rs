use vstd::prelude::*;

use crate::color::Color;
use crate::ucode::UCode;

verus! {

/// What a monitor holds: its size and its pixels, `pixels[x][y]`.
pub struct MonitorView {
    pub width: u16,
    pub height: u16,
    pub pixels: Seq<Seq<Color>>,
}

impl MonitorView {
    /// The pixel grid has `width` columns of `height` pixels each.
    pub open spec fn wf(&self) -> bool {
        &&& self.pixels.len() == self.width
        &&& forall|x: int| 0 <= x < self.pixels.len() ==> #[trigger] self.pixels[x].len() == self.height
    }
}

/// `f` with pixel `(x, y)` set to `c`.
pub open spec fn with_pixel(f: MonitorView, x: int, y: int, c: Color) -> MonitorView {
    MonitorView { pixels: f.pixels.update(x, f.pixels[x].update(y, c)), ..f }
}

/// A fixed-size framebuffer.
pub struct Monitor {
    width: u16,
    height: u16,
    /// The pixels column by column: pixel `(x, y)` is at `x * height + y`.
    data: Vec<Color>,
}

/// Where pixel `(x, y)` of a monitor `h` pixels high is stored.
spec fn slot(x: int, y: int, h: int) -> int {
    x * h + y
}

proof fn lemma_slot(x: int, y: int, x2: int, y2: int, w: int, h: int)
    requires
        0 <= x < w,
        0 <= y < h,
        0 <= x2 < w,
        0 <= y2 < h,
    ensures
        0 <= slot(x, y, h) < w * h,
        0 <= slot(x2, y2, h) < w * h,
        slot(x, y, h) == slot(x2, y2, h) <==> (x == x2 && y == y2),
{
    assert(0 <= x * h + y < w * h) by (nonlinear_arith)
        requires
            0 <= x < w,
            0 <= y < h,
    ;
    assert(0 <= x2 * h + y2 < w * h) by (nonlinear_arith)
        requires
            0 <= x2 < w,
            0 <= y2 < h,
    ;
    if x < x2 {
        assert(x * h + y < x2 * h + y2) by (nonlinear_arith)
            requires
                x < x2,
                0 <= y < h,
                0 <= y2,
        ;
    } else if x2 < x {
        assert(x2 * h + y2 < x * h + y) by (nonlinear_arith)
            requires
                x2 < x,
                0 <= y2 < h,
                0 <= y,
        ;
    }
}

impl View for Monitor {
    type V = MonitorView;

    closed spec fn view(&self) -> MonitorView {
        MonitorView {
            width: self.width,
            height: self.height,
            pixels: Seq::new(
                self.width as nat,
                |x: int|
                    Seq::new(self.height as nat, |y: int| self.data@[slot(x, y, self.height as int)]),
            ),
        }
    }
}

impl Monitor {
    #[verifier::type_invariant]
    spec fn well_formed(&self) -> bool {
        self.data.len() == self.width * self.height
    }

    /// A `w` by `h` monitor, all black.
    pub fn new(w: u16, h: u16) -> (r: Monitor)
        ensures
            r@.width == w,
            r@.height == h,
            r@.pixels == Seq::new(w as nat, |x: int| Seq::new(h as nat, |y: int| Color::black_spec())),
    {
        assert(w * h <= 65535 * 65535) by (nonlinear_arith)
            requires
                w <= 65535,
                h <= 65535,
        ;
        let data = vec![Color::black(); w as usize * h as usize];
        let r = Monitor { width: w, height: h, data };
        assert forall|x: int, y: int| 0 <= x < w && 0 <= y < h implies r.data@[slot(x, y, h as int)]
            == Color::black_spec() by {
            lemma_slot(x, y, x, y, w as int, h as int);
        }
        assert(r@.pixels =~~= Seq::new(
            w as nat,
            |x: int| Seq::new(h as nat, |y: int| Color::black_spec()),
        ));
        r
    }

    /// Sets pixel `(x, y)` to `color`; a pixel outside the monitor is a fault.
    pub fn write(&mut self, x: u16, y: u16, color: Color) -> (r: Result<(), UCode>)
        ensures
            (x < old(self)@.width && y < old(self)@.height) ==> r == Ok::<(), UCode>(())
                && final(self)@ == with_pixel(old(self)@, x as int, y as int, color),
            !(x < old(self)@.width && y < old(self)@.height) ==> r == Err::<(), UCode>(
                UCode::PixelOutOfBounds,
            ) && final(self)@ == old(self)@,
        no_unwind
    {
        proof {
            use_type_invariant(&*self);
        }
        if x < self.width && y < self.height {
            proof {
                lemma_slot(x as int, y as int, x as int, y as int, self.width as int, self.height as int);
            }
            let i = x as usize * self.height as usize + y as usize;
            assert(i as int == slot(x as int, y as int, self.height as int));
            self.data[i] = color;
            proof {
                let h = self.height as int;
                let w = self.width as int;
                assert(old(self).data@.len() == w * h);
                assert(self.data@ == old(self).data@.update(i as int, color));
                assert forall|x2: int, y2: int| 0 <= x2 < w && 0 <= y2 < h implies self.data@[slot(
                    x2,
                    y2,
                    h,
                )] == (if x2 == x && y2 == y {
                    color
                } else {
                    old(self).data@[slot(x2, y2, h)]
                }) by {
                    lemma_slot(x as int, y as int, x2, y2, w, h);
                }
                assert(self@.pixels =~~= old(self)@.pixels.update(
                    x as int,
                    old(self)@.pixels[x as int].update(y as int, color),
                ));
            }
            Ok(())
        } else {
            Err(UCode::PixelOutOfBounds)
        }
    }

    pub fn width(&self) -> (r: u16)
        ensures
            r == self@.width,
            self@.wf(),
    {
        self.width
    }

    pub fn height(&self) -> (r: u16)
        ensures
            r == self@.height,
            self@.wf(),
    {
        self.height
    }

    /// The colour of pixel `(x, y)`, or `None` outside the monitor.
    pub fn pixel(&self, x: u16, y: u16) -> (r: Option<Color>)
        ensures
            (x < self@.width && y < self@.height) ==> r == Some(self@.pixels[x as int][y as int]),
            !(x < self@.width && y < self@.height) ==> r is None,
    {
        proof {
            use_type_invariant(self);
        }
        if x < self.width && y < self.height {
            proof {
                lemma_slot(x as int, y as int, x as int, y as int, self.width as int, self.height as int);
            }
            Some(self.data[x as usize * self.height as usize + y as usize])
        } else {
            None
        }
    }
}

} // verus!
