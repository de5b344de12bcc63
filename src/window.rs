use vstd::prelude::*;
use vstd::arithmetic::power2::{pow2, lemma2_to64, lemma_pow2_strictly_increases};
use vstd::arithmetic::mul::lemma_mul_inequality;
use vstd::bits::lemma_u32_shl_is_mul;
use crate::types::{TcpOption, DEFAULT_WINDOW_SCALE, FALLBACK_MSS};

verus! {

/// The window scale that options `opts` negotiate: the last window-scale option, else the default.
pub open spec fn scale_of(opts: Seq<TcpOption>) -> u8
    decreases opts.len(),
{
    if opts.len() == 0 {
        DEFAULT_WINDOW_SCALE
    } else {
        match opts.last() {
            TcpOption::WindowScale(w) => w,
            _ => scale_of(opts.drop_last()),
        }
    }
}

/// The segment size that options `opts` negotiate: the last MSS option, else the fallback.
pub open spec fn mss_of(opts: Seq<TcpOption>) -> usize
    decreases opts.len(),
{
    if opts.len() == 0 {
        FALLBACK_MSS
    } else {
        match opts.last() {
            TcpOption::MaximumSegmentSize(m) => m as usize,
            _ => mss_of(opts.drop_last()),
        }
    }
}

/// The absolute window for an advertised window and a scale.
pub open spec fn scaled(window_size: u16, window_scale: u8) -> int {
    window_size * pow2(window_scale as nat)
}

/// The scaled window fits in 32 bits.
pub open spec fn window_fits(window_size: u16, window_scale: u8) -> bool {
    scaled(window_size, window_scale) <= u32::MAX
}

/// Reads the window scale and the maximum segment size out of a SYN's options.
pub fn negotiate_options(options: &Vec<TcpOption>) -> (r: (u8, usize))
    ensures
        r == (scale_of(options@), mss_of(options@)),
{
    let mut window_scale: u8 = DEFAULT_WINDOW_SCALE;
    let mut mss: usize = FALLBACK_MSS;
    let mut i: usize = 0;
    while i < options.len()
        invariant
            i <= options@.len(),
            window_scale == scale_of(options@.take(i as int)),
            mss == mss_of(options@.take(i as int)),
        decreases options@.len() - i,
    {
        proof {
            assert(options@.take(i as int + 1).drop_last() =~= options@.take(i as int));
        }
        match options[i] {
            TcpOption::WindowScale(w) => {
                window_scale = w;
            },
            TcpOption::MaximumSegmentSize(m) => {
                mss = m as usize;
            },
            _ => {},
        }
        i = i + 1;
    }
    proof {
        assert(options@.take(options@.len() as int) =~= options@);
    }
    (window_scale, mss)
}

/// The advertised window shifted left by the scale. The result must fit in 32 bits.
pub fn scaled_window(window_size: u16, window_scale: u8) -> (r: u32)
    requires
        window_fits(window_size, window_scale),
    ensures
        r == scaled(window_size, window_scale),
{
    if window_size == 0 {
        assert(window_size * pow2(window_scale as nat) == 0) by (nonlinear_arith)
            requires
                window_size == 0,
        ;
        return 0;
    }
    proof {
        lemma2_to64();
        if window_scale > 32 {
            lemma_pow2_strictly_increases(32, window_scale as nat);
        }
        if window_scale >= 32 {
            lemma_mul_inequality(1, window_size as int, pow2(window_scale as nat) as int);
        }
        assert(window_scale < 32);
        lemma_u32_shl_is_mul(window_size as u32, window_scale as u32);
    }
    (window_size as u32) << (window_scale as u32)
}

} // verus!
