//! Terminal attributes and the flags among them that govern echo.

use vstd::prelude::*;

verus! {

/// The two bits of a terminal's local-mode flags that govern echo: one
/// echoes every typed character, the other echoes the newline even where the
/// first is off. Neither bit is zero and the two differ.
#[derive(Clone, Copy, Debug)]
pub struct EchoFlags {
    echo: u64,
    echo_newline: u64,
}

/// The echo bits of this platform.
///
/// Trusted: the body reads the constants `libc::ECHO` and `libc::ECHONL`.
/// Their values differ from one target to the next; on every target that
/// defines them, each is a single bit and the two are not the same bit. The
/// contract claims less: neither is zero, and they have no bit in common.
#[verifier::external_body]
fn platform_echo_bits() -> (bits: (u64, u64))
    ensures
        bits.0 != 0,
        bits.1 != 0,
        bits.0 & bits.1 == 0,
{
    (libc::ECHO as u64, libc::ECHONL as u64)
}

impl EchoFlags {
    /// The bit that turns echo on.
    pub closed spec fn echo_bit(self) -> u64 {
        self.echo
    }

    /// The bit that echoes the newline on its own.
    pub closed spec fn echo_newline_bit(self) -> u64 {
        self.echo_newline
    }

    /// What holds of every value of this type.
    #[verifier::type_invariant]
    pub closed spec fn wf(self) -> bool {
        &&& self.echo != 0
        &&& self.echo_newline != 0
        &&& self.echo & self.echo_newline == 0
    }

    /// The well-formedness of a pair of bits, spelled out.
    pub proof fn lemma_wf(self)
        ensures
            self.wf() <==> self.echo_bit() != 0 && self.echo_newline_bit() != 0
                && self.echo_bit() & self.echo_newline_bit() == 0,
    {
    }

    /// The pair of the two bits, unless one is zero or they overlap.
    pub fn new(echo: u64, echo_newline: u64) -> (flags: Option<EchoFlags>)
        ensures
            flags is Some <==> echo != 0 && echo_newline != 0 && echo & echo_newline == 0,
            flags matches Some(f) ==> f.wf() && f.echo_bit() == echo && f.echo_newline_bit()
                == echo_newline,
    {
        if echo != 0 && echo_newline != 0 && echo & echo_newline == 0 {
            Some(EchoFlags { echo, echo_newline })
        } else {
            None
        }
    }

    /// The echo bits as this platform defines them.
    pub fn platform() -> (flags: EchoFlags)
        ensures
            flags.wf(),
    {
        let bits = platform_echo_bits();
        EchoFlags { echo: bits.0, echo_newline: bits.1 }
    }
}

/// A snapshot of a terminal's line-discipline configuration: its local-mode
/// flags.
#[derive(Clone, Copy, Debug, PartialEq, Eq, Structural)]
pub struct TerminalAttributes {
    /// The local-mode flags, with the echo bits among them.
    pub local_flags: u64,
}

impl TerminalAttributes {
    /// Whether typed characters are echoed.
    pub open spec fn spec_echo_enabled(self, flags: EchoFlags) -> bool {
        self.local_flags & flags.echo_bit() != 0
    }

    /// Whether the newline is echoed even where echo is off.
    pub open spec fn spec_echo_newline_enabled(self, flags: EchoFlags) -> bool {
        self.local_flags & flags.echo_newline_bit() != 0
    }

    /// These attributes with echo off and the newline still echoed.
    pub open spec fn hidden(self, flags: EchoFlags) -> TerminalAttributes {
        TerminalAttributes {
            local_flags: (self.local_flags & !flags.echo_bit()) | flags.echo_newline_bit(),
        }
    }

    /// Whether typed characters are echoed.
    #[verifier::when_used_as_spec(spec_echo_enabled)]
    pub fn echo_enabled(self, flags: EchoFlags) -> (enabled: bool)
        ensures
            enabled == self.spec_echo_enabled(flags),
    {
        self.local_flags & flags.echo != 0
    }

    /// Whether the newline is echoed even where echo is off.
    #[verifier::when_used_as_spec(spec_echo_newline_enabled)]
    pub fn echo_newline_enabled(self, flags: EchoFlags) -> (enabled: bool)
        ensures
            enabled == self.spec_echo_newline_enabled(flags),
    {
        self.local_flags & flags.echo_newline != 0
    }

    /// The attributes that hide what is typed: echo is off, the newline is
    /// still echoed, and every other flag is as it was.
    pub fn with_echo_suppressed(self, flags: EchoFlags) -> (hidden: TerminalAttributes)
        ensures
            hidden == self.hidden(flags),
            !hidden.echo_enabled(flags),
            hidden.echo_newline_enabled(flags),
            forall|mask: u64|
                mask & flags.echo_bit() == 0 && mask & flags.echo_newline_bit() == 0
                    ==> #[trigger] (hidden.local_flags & mask) == self.local_flags & mask,
    {
        proof {
            use_type_invariant(flags);
            lemma_hidden_flags(self.local_flags, flags.echo, flags.echo_newline);
        }
        TerminalAttributes { local_flags: (self.local_flags & !flags.echo) | flags.echo_newline }
    }
}

/// Clearing one bit pattern and setting another that shares no bit with it
/// leaves the first clear, the second set, and all other bits alone.
pub proof fn lemma_hidden_flags(local: u64, echo: u64, echo_newline: u64)
    requires
        echo_newline != 0,
        echo & echo_newline == 0,
    ensures
        ((local & !echo) | echo_newline) & echo == 0,
        ((local & !echo) | echo_newline) & echo_newline != 0,
        forall|mask: u64|
            mask & echo == 0 && mask & echo_newline == 0 ==> #[trigger] (((local & !echo)
                | echo_newline) & mask) == local & mask,
{
    assert(((local & !echo) | echo_newline) & echo == 0) by (bit_vector)
        requires
            echo & echo_newline == 0,
    ;
    assert(((local & !echo) | echo_newline) & echo_newline != 0) by (bit_vector)
        requires
            echo_newline != 0,
    ;
    assert forall|mask: u64|
        mask & echo == 0 && mask & echo_newline == 0 implies #[trigger] (((local & !echo)
        | echo_newline) & mask) == local & mask by {
        assert(((local & !echo) | echo_newline) & mask == local & mask) by (bit_vector)
            requires
                mask & echo == 0,
                mask & echo_newline == 0,
        ;
    }
}

} // verus!
