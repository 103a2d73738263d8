//! Single-buffered or peripheral-peripheral DMA transfers.

use vstd::prelude::*;
use crate::dma::single_channel::{ChannelSetup, SingleChannel, channel_bit, channel_pending, check_irq, config, TRANSFER_SIZE_MAX};
use crate::dma::{ReadTarget, WriteTarget};

verus! {

/// Configuration for single-buffered DMA transfer
pub struct Config<CH: SingleChannel, FROM: ReadTarget, TO: WriteTarget> {
    ch: CH,
    from: FROM,
    to: TO,
}

impl<CH, FROM, TO, WORD> Config<CH, FROM, TO> where
    CH: SingleChannel,
    FROM: ReadTarget<ReceivedWord = WORD>,
    TO: WriteTarget<TransmittedWord = WORD>,
 {
    /// The channel, the source and the sink that the configuration holds.
    pub closed spec fn parts(self) -> (CH, FROM, TO) {
        (self.ch, self.from, self.to)
    }

    /// The index of the channel that the configuration holds.
    pub open spec fn channel(self) -> u8 {
        self.parts().0.index()
    }

    /// Create a new configuration for single-buffered DMA transfer, which
    /// holds the channel `ch`, the source `from` and the sink `to`.
    pub fn new(ch: CH, from: FROM, to: TO) -> (cfg: Config<CH, FROM, TO>)
        ensures
            cfg.parts() == (ch, from, to),
    {
        Config { ch, from, to }
    }

    /// Start the DMA transfer: returns the transfer with the fields that
    /// set its channel up. The channel is to be disabled, written with
    /// these fields, and enabled.
    ///
    /// The transfer holds the channel and the source of the configuration,
    /// unchanged, and its sink as being asked for its address has left it.
    pub fn start(self) -> (out: (Transfer<CH, FROM, TO>, ChannelSetup))
        ensures
            out.0.parts().0 == self.parts().0,
            out.0.parts().1 == self.parts().1,
            out.1.transfer_size <= TRANSFER_SIZE_MAX,
            out.1.irq_clear == channel_bit(self.channel()),
    {
        let mut this = self;
        let setup = config(&mut this.ch, &this.from, &mut this.to);
        (Transfer { ch: this.ch, from: this.from, to: this.to }, setup)
    }
}

/// Instance of a single-buffered DMA transfer
pub struct Transfer<CH: SingleChannel, FROM: ReadTarget, TO: WriteTarget> {
    ch: CH,
    from: FROM,
    to: TO,
}

impl<CH, FROM, TO, WORD> Transfer<CH, FROM, TO> where
    CH: SingleChannel,
    FROM: ReadTarget<ReceivedWord = WORD>,
    TO: WriteTarget<TransmittedWord = WORD>,
 {
    /// The channel, the source and the sink that the transfer holds.
    pub closed spec fn parts(self) -> (CH, FROM, TO) {
        (self.ch, self.from, self.to)
    }

    /// The index of the channel that the transfer runs on.
    pub open spec fn channel(self) -> u8 {
        self.parts().0.index()
    }

    /// Checks whether a terminal count interrupt is pending for this
    /// channel in `status`, the value of the terminal count status register.
    /// The result is the value to write to the clear register when it is,
    /// `None` when it is not.
    pub fn check_tc_irq(&mut self, status: u32) -> (clear: Option<u32>)
        ensures
            clear == if channel_pending(status, old(self).channel()) {
                Some(channel_bit(old(self).channel()))
            } else {
                None
            },
            *final(self) == *old(self),
    {
        check_irq(status, self.ch.id())
    }

    /// Checks whether an error interrupt is pending for this channel in
    /// `status`, the value of the error status register. The result is the
    /// value to write to the clear register when it is, `None` when it is
    /// not.
    pub fn check_err_irq(&mut self, status: u32) -> (clear: Option<u32>)
        ensures
            clear == if channel_pending(status, old(self).channel()) {
                Some(channel_bit(old(self).channel()))
            } else {
                None
            },
            *final(self) == *old(self),
    {
        check_irq(status, self.ch.id())
    }

    /// Whether the transfer is complete: the channel, whose enable bit reads
    /// `enabled`, has switched itself off.
    pub fn is_done(&self, enabled: bool) -> (done: bool)
        ensures
            done == !enabled,
    {
        !enabled
    }

    /// Ends the transfer if it is complete, returning the channel and
    /// targets; gives the transfer back if the channel, whose enable bit
    /// reads `enabled`, still runs.
    pub fn wait(self, enabled: bool) -> (out: Result<(CH, FROM, TO), Self>)
        ensures
            enabled ==> out == Err::<(CH, FROM, TO), Self>(self),
            !enabled ==> out == Ok::<(CH, FROM, TO), Self>(self.parts()),
    {
        if self.is_done(enabled) {
            Ok((self.ch, self.from, self.to))
        } else {
            Err(self)
        }
    }
}

} // verus!
