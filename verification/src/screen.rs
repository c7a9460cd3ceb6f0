//! The panel state machine.
//!
//! [`WS1in5`] owns the panel's observable driver state: the `cleared` flag and
//! the queue of transport operations that the next replay must perform.  Every
//! method's contract states the exact operations it appends, so the wire
//! protocol — the reset pulse, the fixed initialization sequence, window
//! addressing, and data streaming — is pinned down by the verifier.

use vstd::prelude::*;

use crate::packing::filled_buffer;
use crate::transport::{command_ops, data_ops, TransportOp};
use crate::Error;
use crate::{OLED_HEIGHT, OLED_WIDTH};

verus! {

/// Milliseconds to hold each edge of the reset pulse, and to let the panel
/// settle between configuration and display-on.
pub const STEP_DELAY_MS: u64 = 100;

/// Driver state for one 128x128 4bpp OLED panel.
///
/// `ops` holds the transport operations decided on since the last
/// [`WS1in5::take_ops`]; the shell that owns the bus replays them in order.
pub struct WS1in5 {
    /// True from construction and after every clear or reset, until pixel
    /// data is next streamed to the panel.
    pub cleared: bool,
    /// Transport operations recorded and not yet handed to the shell.
    pub ops: Vec<TransportOp>,
}

/// Whether all four window bounds lie on the panel.  A window whose bounds
/// exceed the panel is deliberately ignored rather than rejected: callers rely
/// on this for clipping.
pub open spec fn window_in_range(xstart: u8, ystart: u8, xend: u8, yend: u8) -> bool {
    xstart <= 128 && ystart <= 128 && xend <= 128 && yend <= 128
}

/// The register bytes that address the window `[xstart, xend) x [ystart, yend)`:
/// a column-address command in two-pixel units, then a row-address command in
/// single-pixel units, each with inclusive end bounds.
pub open spec fn window_command_bytes(xstart: u8, ystart: u8, xend: u8, yend: u8) -> Seq<u8> {
    seq![
        0x15u8,
        (xstart / 2) as u8,
        (xend / 2 - 1) as u8,
        0x75u8,
        ystart,
        (yend - 1) as u8,
    ]
}

/// The transport operations that `set_windows` records: the addressing
/// commands when the window is on the panel, and nothing otherwise.
pub open spec fn window_ops(xstart: u8, ystart: u8, xend: u8, yend: u8) -> Seq<TransportOp> {
    if window_in_range(xstart, ystart, xend, yend) {
        command_ops(window_command_bytes(xstart, ystart, xend, yend))
    } else {
        Seq::empty()
    }
}

/// The fixed register-configuration bytes of the initialization sequence:
/// display off, column and row address ranges, contrast, remap/format, start
/// line, display offset, normal display, multiplex ratio, phase length, master
/// clock, internal regulator, precharge voltage, VCOMH, second precharge,
/// clock divider, and command lock.
pub open spec fn init_command_bytes() -> Seq<u8> {
    seq![
        0xaeu8,
        0x15u8, 0x00u8, 0x7fu8,
        0x75u8, 0x00u8, 0x7fu8,
        0x81u8, 0x80u8,
        0xa0u8, 0x51u8,
        0xa1u8, 0x00u8,
        0xa2u8, 0x00u8,
        0xa4u8,
        0xa8u8, 0x7fu8,
        0xb1u8, 0xf1u8,
        0xb3u8, 0x00u8,
        0xabu8, 0x01u8,
        0xb6u8, 0x0fu8,
        0xbeu8, 0x0fu8,
        0xbcu8, 0x08u8,
        0xd5u8, 0x62u8,
        0xfdu8, 0x12u8,
    ]
}

/// The reset protocol: a high-low-high pulse on the reset line with a settle
/// delay after each edge.
pub open spec fn reset_ops() -> Seq<TransportOp> {
    seq![
        TransportOp::Reset(true),
        TransportOp::DelayMs(STEP_DELAY_MS),
        TransportOp::Reset(false),
        TransportOp::DelayMs(STEP_DELAY_MS),
        TransportOp::Reset(true),
        TransportOp::DelayMs(STEP_DELAY_MS),
    ]
}

/// The full initialization transcript: the reset pulse, the configuration
/// bytes, a settle delay, and display-on.
pub open spec fn init_ops() -> Seq<TransportOp> {
    reset_ops() + command_ops(init_command_bytes())
        + seq![TransportOp::DelayMs(STEP_DELAY_MS), TransportOp::Command(0xafu8)]
}

/// The transcript recorded by construction: the reset line is first parked
/// low, then the initialization sequence runs.
pub open spec fn new_ops() -> Seq<TransportOp> {
    seq![TransportOp::Reset(false)] + init_ops()
}

/// A run of `n` zero bytes: both nibbles of every packed byte at minimum
/// intensity.
pub open spec fn zero_bytes(n: nat) -> Seq<u8> {
    Seq::new(n, |_i: int| 0u8)
}

/// The conditions under which a write of a `width` x `height` region at
/// `(x, y)` neither overflows the controller's 8-bit coordinate registers nor
/// produces an empty on-panel window (whose inclusive end bounds could not be
/// computed).
pub open spec fn write_coords_ok(x: int, y: int, width: int, height: int) -> bool {
    &&& x + width <= 255
    &&& y + height <= 255
    &&& window_in_range(x as u8, y as u8, (x + width) as u8, (y + height) as u8) ==> (x + width
        >= 2 && y + height >= 1)
}

impl WS1in5 {
    /// Create a driver with the initialization transcript already recorded.
    pub fn new() -> (s: WS1in5)
        ensures
            s.cleared,
            s.ops@ == new_ops(),
    {
        let mut this = WS1in5 { cleared: true, ops: Vec::new() };
        this.ops.push(TransportOp::Reset(false));
        this.init();
        proof {
            assert(this.ops@ =~= new_ops());
        }
        this
    }

    /// Record one register/command byte.
    fn command(&mut self, cmd: u8)
        ensures
            final(self).cleared == old(self).cleared,
            final(self).ops@ == old(self).ops@.push(TransportOp::Command(cmd)),
    {
        self.ops.push(TransportOp::Command(cmd));
    }

    /// Record one framebuffer data byte.
    fn data(&mut self, byte: u8)
        ensures
            final(self).cleared == old(self).cleared,
            final(self).ops@ == old(self).ops@.push(TransportOp::Data(byte)),
    {
        self.ops.push(TransportOp::Data(byte));
    }

    /// Record a level change on the reset line.
    fn set_reset(&mut self, level: bool)
        ensures
            final(self).cleared == old(self).cleared,
            final(self).ops@ == old(self).ops@.push(TransportOp::Reset(level)),
    {
        self.ops.push(TransportOp::Reset(level));
    }

    /// Record a fixed-duration hold.
    fn delay(&mut self, ms: u64)
        ensures
            final(self).cleared == old(self).cleared,
            final(self).ops@ == old(self).ops@.push(TransportOp::DelayMs(ms)),
    {
        self.ops.push(TransportOp::DelayMs(ms));
    }

    /// Record the full initialization sequence.
    fn init(&mut self)
        ensures
            final(self).cleared,
            final(self).ops@ == old(self).ops@ + init_ops(),
    {
        self.reset();

        self.command(0xae);

        self.command(0x15);
        self.command(0x00);
        self.command(0x7f);

        self.command(0x75);
        self.command(0x00);
        self.command(0x7f);

        self.command(0x81);
        self.command(0x80);

        self.command(0xa0);
        self.command(0x51);

        self.command(0xa1);
        self.command(0x00);

        self.command(0xa2);
        self.command(0x00);

        self.command(0xa4);
        self.command(0xa8);
        self.command(0x7f);

        self.command(0xb1);
        self.command(0xf1);

        self.command(0xb3);
        self.command(0x00);

        self.command(0xab);
        self.command(0x01);

        self.command(0xb6);
        self.command(0x0f);

        self.command(0xbe);
        self.command(0x0f);

        self.command(0xbc);
        self.command(0x08);

        self.command(0xd5);
        self.command(0x62);

        self.command(0xfd);
        self.command(0x12);

        self.delay(STEP_DELAY_MS);
        self.command(0xaf);

        proof {
            assert(self.ops@ =~= old(self).ops@ + init_ops());
        }
    }

    /// Record the reset pulse and mark the panel cleared.
    pub fn reset(&mut self)
        ensures
            final(self).cleared,
            final(self).ops@ == old(self).ops@ + reset_ops(),
    {
        self.set_reset(true);
        self.delay(STEP_DELAY_MS);
        self.set_reset(false);
        self.delay(STEP_DELAY_MS);
        self.set_reset(true);
        self.delay(STEP_DELAY_MS);

        self.cleared = true;

        proof {
            assert(self.ops@ =~= old(self).ops@ + reset_ops());
        }
    }

    /// True if the panel has been cleared since it was last written to.
    pub fn has_cleared(&self) -> (r: bool)
        ensures
            r == self.cleared,
    {
        self.cleared
    }

    /// Hand the recorded transport operations to the shell, leaving the
    /// queue empty.
    pub fn take_ops(&mut self) -> (r: Vec<TransportOp>)
        ensures
            r@ == old(self).ops@,
            final(self).ops@ == Seq::<TransportOp>::empty(),
            final(self).cleared == old(self).cleared,
    {
        let mut out: Vec<TransportOp> = Vec::new();
        core::mem::swap(&mut out, &mut self.ops);
        out
    }

    /// Address the window `[xstart, xend) x [ystart, yend)` for subsequent
    /// data writes.  A window with any bound beyond the panel is silently
    /// ignored — no commands are recorded and the call still succeeds.
    ///
    /// When the window is on the panel it must not be empty: the controller
    /// takes inclusive end bounds, so `xend` and `yend` are decremented.
    pub fn set_windows(&mut self, xstart: u8, ystart: u8, xend: u8, yend: u8) -> (r: Result<
        (),
        Error,
    >)
        requires
            window_in_range(xstart, ystart, xend, yend) ==> xend >= 2 && yend >= 1,
        ensures
            r is Ok,
            final(self).cleared == old(self).cleared,
            final(self).ops@ == old(self).ops@ + window_ops(xstart, ystart, xend, yend),
    {
        if xstart > (OLED_WIDTH as u8) || ystart > (OLED_HEIGHT as u8) || xend > (OLED_WIDTH
            as u8) || yend > (OLED_HEIGHT as u8) {
            proof {
                assert(self.ops@ =~= self.ops@ + window_ops(xstart, ystart, xend, yend));
            }
            return Ok(());
        }

        self.command(0x15);
        self.command(xstart / 2);
        self.command(xend / 2 - 1);

        self.command(0x75);
        self.command(ystart);
        self.command(yend - 1);

        proof {
            assert(self.ops@ =~= old(self).ops@ + window_ops(xstart, ystart, xend, yend));
        }
        Ok(())
    }

    /// Stream a packed buffer to the `width` x `height` window at `(x, y)`.
    ///
    /// The window is addressed first; if its bounds exceed the panel that
    /// addressing is silently skipped, but the data bytes are still streamed
    /// against whatever window was previously set — the controller's
    /// clipping policy makes no exception for the write path.  The buffer
    /// must hold at least one byte per packed column and row; a shorter
    /// buffer fails with [`Error::OutOfBounds`] after the addressing
    /// commands, leaving the cleared flag untouched.
    pub fn show_image(
        &mut self,
        buffer: Vec<u8>,
        x: usize,
        y: usize,
        width: usize,
        height: usize,
    ) -> (r: Result<(), Error>)
        requires
            write_coords_ok(x as int, y as int, width as int, height as int),
            (width / 2) * height <= usize::MAX,
        ensures
            match r {
                Ok(_) => {
                    &&& buffer@.len() >= (width / 2) * height
                    &&& !final(self).cleared
                    &&& final(self).ops@ == old(self).ops@ + window_ops(
                        x as u8,
                        y as u8,
                        (x + width) as u8,
                        (y + height) as u8,
                    ) + data_ops(buffer@.subrange(0, ((width / 2) * height) as int))
                },
                Err(e) => {
                    &&& e == Error::OutOfBounds
                    &&& buffer@.len() < (width / 2) * height
                    &&& final(self).cleared == old(self).cleared
                    &&& final(self).ops@ == old(self).ops@ + window_ops(
                        x as u8,
                        y as u8,
                        (x + width) as u8,
                        (y + height) as u8,
                    )
                },
            },
    {
        let ghost prefix = self.ops@ + window_ops(
            x as u8,
            y as u8,
            (x + width) as u8,
            (y + height) as u8,
        );
        let r = self.set_windows(x as u8, y as u8, (x + width) as u8, (y + height) as u8);
        if r.is_err() {
            return r;
        }

        let half = width / 2;
        if buffer.len() < half * height {
            return Err(Error::OutOfBounds);
        }

        self.cleared = false;

        let mut i: usize = 0;
        while i < height
            invariant
                i <= height,
                half == width / 2,
                buffer@.len() >= half * height,
                half * height <= usize::MAX,
                !self.cleared,
                self.ops@ == prefix + data_ops(buffer@.subrange(0, (half * i) as int)),
            decreases height - i,
        {
            let mut j: usize = 0;
            proof {
                assert(half * i + half <= half * height) by (nonlinear_arith)
                    requires
                        i < height,
                        0 <= half,
                ;
            }
            while j < half
                invariant
                    j <= half,
                    i < height,
                    half == width / 2,
                    buffer@.len() >= half * height,
                    half * height <= usize::MAX,
                    half * i + half <= half * height,
                    !self.cleared,
                    self.ops@ == prefix + data_ops(buffer@.subrange(0, (half * i + j) as int)),
                decreases half - j,
            {
                let ghost k = (half * i + j) as int;
                self.data(buffer[j + half * i]);
                proof {
                    assert(data_ops(buffer@.subrange(0, k + 1)) =~= data_ops(
                        buffer@.subrange(0, k),
                    ).push(TransportOp::Data(buffer@[k])));
                    assert(self.ops@ =~= prefix + data_ops(buffer@.subrange(0, k + 1)));
                }
                j = j + 1;
            }
            proof {
                assert(half * (i + 1) == half * i + half) by (nonlinear_arith);
            }
            i = i + 1;
        }

        Ok(())
    }

    /// Write an all-zero buffer over the `width` x `height` region at
    /// `(x, y)` and mark the panel cleared.
    pub fn clear(&mut self, x: usize, y: usize, width: usize, height: usize) -> (r: Result<
        (),
        Error,
    >)
        requires
            write_coords_ok(x as int, y as int, width as int, height as int),
            (width / 2) * height <= usize::MAX,
        ensures
            r is Ok,
            final(self).cleared,
            final(self).ops@ == old(self).ops@ + window_ops(
                x as u8,
                y as u8,
                (x + width) as u8,
                (y + height) as u8,
            ) + data_ops(zero_bytes(((width / 2) * height) as nat)),
    {
        let buffer: Vec<u8> = filled_buffer((width / 2) * height, 0x00);
        let ghost zeros = buffer@;
        proof {
            assert(zeros =~= zero_bytes(((width / 2) * height) as nat));
        }
        let r = self.show_image(buffer, x, y, width, height);
        self.cleared = true;
        proof {
            assert(zeros.subrange(0, ((width / 2) * height) as int) =~= zero_bytes(
                ((width / 2) * height) as nat,
            ));
        }
        r
    }

    /// Clear the whole panel.
    pub fn clear_all(&mut self) -> (r: Result<(), Error>)
        ensures
            r is Ok,
            final(self).cleared,
            final(self).ops@ == old(self).ops@ + window_ops(0u8, 0u8, 128u8, 128u8) + data_ops(
                zero_bytes(((OLED_WIDTH / 2) * OLED_HEIGHT) as nat),
            ),
    {
        self.clear(0, 0, OLED_WIDTH, OLED_HEIGHT)
    }
}


} // verus!
