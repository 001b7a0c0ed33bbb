use vstd::prelude::*;

verus! {

/// The two-wire bus that the expander hangs on, as far as the driver needs
/// it: writing bytes to the chip at a seven-bit address, and writing bytes
/// followed by reading one byte back, which is returned.
///
/// Nothing is assumed of an implementation. What the driver proves holds
/// whatever the bus returns, and the behaviour that it proves of the chip's
/// registers is stated over a model of them, not of this trait.
pub trait Bus {
    /// The failure of a transaction.
    type Error;

    /// Sends `bytes` to the chip at `address` in one transaction.
    fn write(&mut self, address: u8, bytes: &[u8]) -> Result<(), Self::Error>;

    /// Sends `bytes` to the chip at `address`, then reads one byte from it,
    /// in one transaction, and returns that byte.
    fn write_read(&mut self, address: u8, bytes: &[u8]) -> Result<u8, Self::Error>;
}

/// `outcome` is what the bus returned for one write of `bytes` to the chip at
/// `address`.
pub open spec fn wrote<B: Bus>(address: u8, bytes: Seq<u8>, outcome: Result<(), B::Error>) -> bool {
    exists|bus: &mut B, frame: &[u8]|
        frame@ == bytes && #[trigger] call_ensures(B::write, (bus, address, frame), outcome)
}

/// `outcome` is what the bus returned for one write of `bytes` to the chip at
/// `address` followed by reading one byte back: the byte, or the failure.
pub open spec fn read_back<B: Bus>(address: u8, bytes: Seq<u8>, outcome: Result<u8, B::Error>) -> bool {
    exists|bus: &mut B, frame: &[u8]|
        frame@ == bytes && #[trigger] call_ensures(B::write_read, (bus, address, frame), outcome)
}

} // verus!
