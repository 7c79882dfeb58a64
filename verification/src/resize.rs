//! Resizing a video: absolute or percentage dimensions, optionally keeping
//! the aspect ratio, with the external tool's requirement of even sizes.

use vstd::math::abs;
use vstd::prelude::*;

use crate::stream::fresh_stream;
use crate::stream::unary_step;
use crate::labels::dec_str;
use crate::stream::FfmpegInputStream;
use crate::stream::StreamView;

verus! {

/// A percentage clamped to the unit range.
pub open spec fn clamp_pct(p: nat) -> nat {
    if p > 100 {
        100
    } else {
        p
    }
}

/// A dimension scaled by a clamped percentage, rounded to nearest.
pub open spec fn percent_scaled(dim: nat, pct: nat) -> nat {
    (dim * clamp_pct(pct) + 50) / 100
}

/// The quotient `a / b` rounded to nearest, halves up.
pub open spec fn round_div(a: nat, b: nat) -> nat
    recommends
        b > 0,
{
    (2 * a + b) / (2 * b)
}

/// A dimension bumped to the next even value.
pub open spec fn evened(d: nat) -> nat {
    if d % 2 != 0 {
        d + 1
    } else {
        d
    }
}

/// The dimensions after the keep-ratio adjustment: of the two candidates
/// that restore the source's aspect ratio, the one closer to what was asked
/// for wins, and is bumped to an even value.
pub open spec fn ratio_adjusted(vw: nat, vh: nat, nw: nat, nh: nat) -> (nat, nat)
    recommends
        vw > 0,
        vh > 0,
{
    let pw = round_div(nh * vw, vh);
    let ph = round_div(nw * vh, vw);
    let wdiff = abs(nw - pw);
    let hdiff = abs(nh - ph);
    if wdiff < hdiff {
        (evened(pw), nh)
    } else {
        (nw, evened(ph))
    }
}

/// Configuration of a resize.
pub struct ResizeCommand {
    /// New width of the video, absolute or as a percentage.
    pub width: u32,
    /// Whether the width is a percentage.
    pub width_as_percentage: bool,
    /// New height of the video, absolute or as a percentage.
    pub height: u32,
    /// Whether the height is a percentage.
    pub height_as_percentage: bool,
    /// Whether to keep the aspect ratio.
    pub keep_ratio: bool,
    /// Output path.
    pub output: String,
}

impl ResizeCommand {
    /// The requested width against the probed width.
    pub fn get_new_width(&self, video_width: u32) -> (r: u32)
        ensures
            self.width_as_percentage ==> r == percent_scaled(
                video_width as nat,
                self.width as nat,
            ),
            !self.width_as_percentage ==> r == self.width,
    {
        if self.width_as_percentage {
            let pct: u64 = if self.width > 100 {
                100
            } else {
                self.width as u64
            };
            proof {
                assert(video_width as u64 * pct <= 0xFFFF_FFFFu64 * 100) by (nonlinear_arith)
                    requires
                        video_width <= 0xFFFF_FFFFu64,
                        pct <= 100,
                ;
            }
            let scaled = (video_width as u64 * pct + 50) / 100;
            proof {
                assert(video_width as u64 * pct + 50 <= video_width * 100 + 50) by (nonlinear_arith)
                    requires
                        pct <= 100,
                ;
                assert((video_width * 100 + 50) / 100 == video_width);
            }
            scaled as u32
        } else {
            self.width
        }
    }

    /// The requested height against the probed height.
    pub fn get_new_height(&self, video_height: u32) -> (r: u32)
        ensures
            self.height_as_percentage ==> r == percent_scaled(
                video_height as nat,
                self.height as nat,
            ),
            !self.height_as_percentage ==> r == self.height,
    {
        if self.height_as_percentage {
            let pct: u64 = if self.height > 100 {
                100
            } else {
                self.height as u64
            };
            proof {
                assert(video_height as u64 * pct <= 0xFFFF_FFFFu64 * 100) by (nonlinear_arith)
                    requires
                        video_height <= 0xFFFF_FFFFu64,
                        pct <= 100,
                ;
            }
            let scaled = (video_height as u64 * pct + 50) / 100;
            proof {
                assert(video_height as u64 * pct + 50 <= video_height * 100 + 50) by (nonlinear_arith)
                    requires
                        pct <= 100,
                ;
                assert((video_height * 100 + 50) / 100 == video_height);
            }
            scaled as u32
        } else {
            self.height
        }
    }

    /// The final target dimensions: percentages applied, and, when the
    /// aspect ratio is kept, the closer-fitting dimension recomputed from
    /// the ratio and bumped to an even value.  `None` only when a
    /// ratio-adjusted dimension cannot fit the dimension type.
    pub fn plan_dimensions(&self, video_width: u32, video_height: u32) -> (r: Option<(u32, u32)>)
        requires
            video_width > 0,
            video_height > 0,
        ensures
            !self.keep_ratio ==> r == Some(
                (
                    self.spec_new_width(video_width as nat) as u32,
                    self.spec_new_height(video_height as nat) as u32,
                ),
            ),
            self.keep_ratio ==> {
                let adjusted = ratio_adjusted(
                    video_width as nat,
                    video_height as nat,
                    self.spec_new_width(video_width as nat),
                    self.spec_new_height(video_height as nat),
                );
                r == (if adjusted.0 <= u32::MAX && adjusted.1 <= u32::MAX {
                    Some(((adjusted.0 as u32), (adjusted.1 as u32)))
                } else {
                    None::<(u32, u32)>
                })
            },
    {
        let nw = self.get_new_width(video_width);
        let nh = self.get_new_height(video_height);
        if !self.keep_ratio {
            return Some((nw, nh));
        }
        let vw = video_width as u128;
        let vh = video_height as u128;
        proof {
            assert((nh as u128) * vw <= 0xFFFF_FFFFu128 * 0xFFFF_FFFFu128) by (nonlinear_arith)
                requires
                    nh <= 0xFFFF_FFFFu128,
                    vw <= 0xFFFF_FFFFu128,
            ;
            assert((nw as u128) * vh <= 0xFFFF_FFFFu128 * 0xFFFF_FFFFu128) by (nonlinear_arith)
                requires
                    nw <= 0xFFFF_FFFFu128,
                    vh <= 0xFFFF_FFFFu128,
            ;
        }
        let pw = (2 * ((nh as u128) * vw) + vh) / (2 * vh);
        let ph = (2 * ((nw as u128) * vh) + vw) / (2 * vw);
        proof {
            assert(pw == round_div((nh * video_width) as nat, video_height as nat));
            assert(ph == round_div((nw * video_height) as nat, video_width as nat));
        }
        let wdiff = if (nw as u128) >= pw {
            nw as u128 - pw
        } else {
            pw - nw as u128
        };
        let hdiff = if (nh as u128) >= ph {
            nh as u128 - ph
        } else {
            ph - nh as u128
        };
        if wdiff < hdiff {
            let even_w = if pw % 2 != 0 {
                pw + 1
            } else {
                pw
            };
            if even_w <= 0xFFFF_FFFF {
                Some((even_w as u32, nh))
            } else {
                None
            }
        } else {
            let even_h = if ph % 2 != 0 {
                ph + 1
            } else {
                ph
            };
            if even_h <= 0xFFFF_FFFF {
                Some((nw, even_h as u32))
            } else {
                None
            }
        }
    }

    /// The requested width, as `get_new_width` computes it.
    pub open spec fn spec_new_width(&self, video_width: nat) -> nat {
        if self.width_as_percentage {
            percent_scaled(video_width, self.width as nat)
        } else {
            self.width as nat
        }
    }

    /// The requested height, as `get_new_height` computes it.
    pub open spec fn spec_new_height(&self, video_height: nat) -> nat {
        if self.height_as_percentage {
            percent_scaled(video_height, self.height as nat)
        } else {
            self.height as nat
        }
    }

    /// Sets up the stream this resize will run against the final dimensions.
    pub fn configure(&self, input: &str, width: u32, height: u32) -> (r: FfmpegInputStream)
        ensures
            r@ == (StreamView {
                output_path: Some(self.output@),
                ..unary_step(
                    fresh_stream(0, input@),
                    "scale"@,
                    seq![dec_str(width as nat), dec_str(height as nat)],
                )
            }),
            r@.wf(),
    {
        let mut stream = FfmpegInputStream::new(0, input);
        stream.scale(width, height);
        stream.output(self.output.as_str());
        proof {
            assert(stream@ =~= (StreamView {
                output_path: Some(self.output@),
                ..unary_step(
                    fresh_stream(0, input@),
                    "scale"@,
                    seq![dec_str(width as nat), dec_str(height as nat)],
                )
            }));
        }
        stream
    }
}

} // verus!
