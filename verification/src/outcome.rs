//! The result of one reattachment cycle and the token that reports it.

use vstd::prelude::*;
use vstd::string::*;

verus! {

/// How one detach/attach cycle ended.
#[derive(Clone, Copy, Debug, PartialEq, Eq, Structural)]
pub enum Outcome {
    /// Both hypervisor commands ran without error output.
    Success,
    /// One of the hypervisor commands wrote error output.
    Failure,
}

/// The text sent to the peer for an outcome.
pub open spec fn token_text(outcome: Outcome) -> Seq<char> {
    match outcome {
        Outcome::Success => "kthxbye"@,
        Outcome::Failure => "ohnoes"@,
    }
}

/// The bytes that go over the wire for an outcome: the ASCII codes of its token.
pub open spec fn token_octets(outcome: Outcome) -> Seq<u8> {
    match outcome {
        Outcome::Success => seq![0x6bu8, 0x74u8, 0x68u8, 0x78u8, 0x62u8, 0x79u8, 0x65u8],
        Outcome::Failure => seq![0x6fu8, 0x68u8, 0x6eu8, 0x6fu8, 0x65u8, 0x73u8],
    }
}

/// The token text is plain ASCII, and the wire bytes are its character codes.
pub proof fn token_octets_spell_text(outcome: Outcome)
    ensures
        token_octets(outcome).len() == token_text(outcome).len(),
        forall|i: int|
            0 <= i < token_text(outcome).len() ==> token_octets(outcome)[i] == #[trigger] token_text(
                outcome,
            )[i] as u8,
        token_text(outcome) == match outcome {
            Outcome::Success => seq!['k', 't', 'h', 'x', 'b', 'y', 'e'],
            Outcome::Failure => seq!['o', 'h', 'n', 'o', 'e', 's'],
        },
{
    reveal_strlit("kthxbye");
    reveal_strlit("ohnoes");
    match outcome {
        Outcome::Success => {
            assert(token_text(outcome) =~= seq!['k', 't', 'h', 'x', 'b', 'y', 'e']);
        },
        Outcome::Failure => {
            assert(token_text(outcome) =~= seq!['o', 'h', 'n', 'o', 'e', 's']);
        },
    }
}

/// The two tokens differ, so a peer can always tell the outcomes apart.
pub proof fn tokens_are_distinct()
    ensures
        token_octets(Outcome::Success) != token_octets(Outcome::Failure),
        token_text(Outcome::Success) != token_text(Outcome::Failure),
{
    reveal_strlit("kthxbye");
    reveal_strlit("ohnoes");
    assert(token_octets(Outcome::Success).len() == 7);
    assert(token_octets(Outcome::Failure).len() == 6);
    assert(token_text(Outcome::Success).len() == 7);
    assert(token_text(Outcome::Failure).len() == 6);
}

impl Outcome {
    /// The token for this outcome, as text.
    pub fn token(self) -> (text: &'static str)
        ensures
            text@ == token_text(self),
    {
        match self {
            Outcome::Success => "kthxbye",
            Outcome::Failure => "ohnoes",
        }
    }

    /// The token for this outcome, as the bytes to write to the peer.
    pub fn token_bytes(self) -> (bytes: Vec<u8>)
        ensures
            bytes@ == token_octets(self),
    {
        let text = self.token();
        proof {
            token_octets_spell_text(self);
            is_ascii_spec_bytes(text);
            assert(is_ascii(text));
        }
        let bytes = text.as_bytes_vec();
        assert(bytes@ =~= token_octets(self));
        bytes
    }

    /// Whether the cycle succeeded.
    pub fn is_success(self) -> (yes: bool)
        ensures
            yes == (self == Outcome::Success),
    {
        match self {
            Outcome::Success => true,
            Outcome::Failure => false,
        }
    }
}

} // verus!
