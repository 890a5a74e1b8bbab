//! Register words of the external interrupt controller (EXTI) and of the
//! system configuration controller that routes a GPIO pin to an EXTI line.
//!
//! The functions compute the new value of a register from its current one;
//! reading and writing the registers is left to the caller.
use vstd::prelude::*;

verus! {

/// Whether bit `i` of `word` is one.
pub open spec fn bit(word: u32, i: u32) -> bool {
    (word >> i) & 1u32 == 1u32
}

/// The four-bit field of an EXTICR word that names the port routed to
/// `slot`, the line's position within that word.
pub open spec fn source_field(word: u32, slot: u32) -> u32 {
    (word >> ((slot * 4) as u32)) & 0xfu32
}

/// `new` is `old` with bit `line` set and every other bit kept.
pub open spec fn sets_only(old: u32, new: u32, line: u32) -> bool {
    &&& bit(new, line)
    &&& forall|i: u32| i < 32 && i != line ==> #[trigger] bit(new, i) == bit(old, i)
}

/// `new` is `old` with the field of `slot` holding `port` and every other
/// field, and the reserved upper half, kept.
pub open spec fn selects_only(old: u32, new: u32, slot: u32, port: u32) -> bool {
    &&& source_field(new, slot) == port
    &&& forall|j: u32| j < 4 && j != slot ==> #[trigger] source_field(new, j) == source_field(old, j)
    &&& new >> 16u32 == old >> 16u32
}

proof fn lemma_set_bit(word: u32, line: u32)
    by (bit_vector)
    requires
        line < 32,
    ensures
        bit(word | (1u32 << line), line),
        forall|i: u32| i < 32 && i != line ==> #[trigger] bit(word | (1u32 << line), i) == bit(word, i),
{
}

proof fn lemma_single_bit(line: u32)
    by (bit_vector)
    requires
        line < 32,
    ensures
        bit(1u32 << line, line),
        forall|i: u32| i < 32 && i != line ==> !#[trigger] bit(1u32 << line, i),
{
}

proof fn lemma_replace_field(word: u32, slot: u32, port: u32)
    by (bit_vector)
    requires
        slot < 4,
        port < 16,
    ensures
        source_field((word & !(0xfu32 << ((slot * 4) as u32))) | (port << ((slot * 4) as u32)), slot) == port,
        forall|j: u32| j < 4 && j != slot ==> #[trigger] source_field(
            (word & !(0xfu32 << ((slot * 4) as u32))) | (port << ((slot * 4) as u32)), j,
        ) == source_field(word, j),
        ((word & !(0xfu32 << ((slot * 4) as u32))) | (port << ((slot * 4) as u32))) >> 16u32 == word >> 16u32,
{
}

/// `word` with bit `line` set: unmasks the line in IMR, or selects its rising
/// (or falling) edge in RTSR (or FTSR).
pub fn with_line(word: u32, line: u32) -> (r: u32)
    requires
        line < 32,
    ensures
        sets_only(word, r, line),
{
    proof {
        lemma_set_bit(word, line);
    }
    word | (1u32 << line)
}

/// The word to write to the pending register to clear the request of `line`
/// alone: a pending bit is cleared by writing one to it, and a zero leaves
/// the others as they are.
pub fn pending_clear_word(line: u32) -> (r: u32)
    requires
        line < 32,
    ensures
        bit(r, line),
        forall|i: u32| i < 32 && i != line ==> !#[trigger] bit(r, i),
{
    proof {
        lemma_single_bit(line);
    }
    1u32 << line
}

/// `word`, an EXTICR word, with port number `port` (0 for port A, 1 for B,
/// and so on) routed to the line at position `slot` of that word.
pub fn with_source(word: u32, slot: u32, port: u32) -> (r: u32)
    requires
        slot < 4,
        port < 16,
    ensures
        selects_only(word, r, slot, port),
{
    proof {
        lemma_replace_field(word, slot, port);
    }
    let shift: u32 = slot * 4;
    (word & !(0xfu32 << shift)) | (port << shift)
}

/// The three register words that decide whether a GPIO pin raises an
/// interrupt on its rising edge: the interrupt mask (IMR, one bit per line,
/// one for unmasked), the rising trigger selection (RTSR, one bit per line)
/// and the EXTICR word that holds the line's port field (EXTICR1 for lines 0
/// to 3, EXTICR2 for 4 to 7, and so on).
pub struct LineRouting {
    pub imr: u32,
    pub rtsr: u32,
    pub exticr: u32,
}

impl LineRouting {
    /// Routes pin `line` of port `port` to EXTI line `line`, triggered on the
    /// rising edge and unmasked, and leaves every other line as it was.
    pub fn route_rising(&mut self, line: u32, port: u32)
        requires
            line < 16,
            port < 16,
        ensures
            sets_only(old(self).imr, final(self).imr, line),
            sets_only(old(self).rtsr, final(self).rtsr, line),
            selects_only(old(self).exticr, final(self).exticr, line % 4, port),
    {
        self.exticr = with_source(self.exticr, line % 4, port);
        self.imr = with_line(self.imr, line);
        self.rtsr = with_line(self.rtsr, line);
    }
}

} // verus!
