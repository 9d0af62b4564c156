use vstd::prelude::*;
use vstd::string::StringSliceAdditionalSpecFns;
use crate::addresses::{Addr, CanonicalAddr};
use crate::errors::{
    ed25519_verify_outcome, ed25519_verify_table, recover_outcome, recover_table,
    secp256k1_verify_outcome, secp256k1_verify_table, signing_outcome, signing_table, HostReply,
    RecoverPubkeyError, SigningError, StdError, VerificationError,
};
use crate::halves::{from_high_half, from_low_half};
use crate::memory::{release1, release2, release3, released, send2, send3, sent2, sent3, Memory, NO_REGION};
use crate::sections::{encode_sections, encoded, sections_fit, views};

verus! {

/// The longest human address, in bytes, that the host reads.
pub const MAX_HUMAN_ADDRESS_INPUT: usize = 256;

/// The room given to the host for a canonical address.
pub const CANONICAL_ADDRESS_BUFFER_LENGTH: u32 = 64;

/// The room given to the host for a human readable address.
pub const HUMAN_ADDRESS_BUFFER_LENGTH: u32 = 90;

/// The text that `String::from_utf8_lossy` makes of `b`.
pub uninterp spec fn text_of(b: Seq<u8>) -> Seq<char>;

/// Relies on `String::from_utf8_lossy`: the text depends on the bytes alone.
#[verifier::external_body]
fn string_from_bytes(b: &[u8]) -> (r: String)
    ensures
        r@ == text_of(b@),
{
    String::from_utf8_lossy(b).into_owned()
}

/// Takes back a region that the host filled with text.
fn consume_string_region(mem: &mut Memory, h: u32) -> (r: String)
    requires
        old(mem).wf(),
        old(mem).live(h),
    ensures
        Memory::consumed(*old(mem), *final(mem), h, old(mem).content(h)),
        r@ == text_of(old(mem).content(h)),
{
    let bytes = mem.consume_region(h);
    string_from_bytes(bytes.as_slice())
}

/// What the host offers besides storage and queries, in stage and finish
/// steps around each host call.
#[derive(Clone, Copy, Debug)]
pub struct ExternalApi {}

impl ExternalApi {
    pub fn new() -> (r: ExternalApi) {
        ExternalApi {}
    }

    /// Stages an address check. Input longer than the host reads is refused
    /// here, and nothing is sent.
    pub fn prepare_addr_validate(&self, mem: &mut Memory, input: &str) -> (r: Result<u32, StdError>)
        requires
            old(mem).wf(),
            old(mem).room(1, input.spec_bytes().len()),
        ensures
            input.spec_bytes().len() > MAX_HUMAN_ADDRESS_INPUT ==> r == Err::<u32, StdError>(
                StdError::InputTooLong,
            ) && *final(mem) == *old(mem),
            input.spec_bytes().len() <= MAX_HUMAN_ADDRESS_INPUT ==> r is Ok && Memory::built(
                *old(mem),
                *final(mem),
                r->Ok_0,
                input.spec_bytes(),
            ),
    {
        let bytes = input.as_bytes();
        if bytes.len() > MAX_HUMAN_ADDRESS_INPUT {
            return Err(StdError::InputTooLong);
        }
        Ok(mem.build_region(bytes))
    }

    /// Finishes an address check whose host result was `result`: `input` is
    /// an address where it is zero, else the host's message is the error.
    pub fn complete_addr_validate(&self, mem: &mut Memory, source: u32, input: &str, result: u32) -> (r:
        Result<Addr, StdError>)
        requires
            old(mem).wf(),
            old(mem).live(source),
            result == 0 || (old(mem).live(result) && result != source),
        ensures
            result == 0 ==> r is Ok && r->Ok_0@ == input@ && released(
                *old(mem),
                *final(mem),
                set![source],
            ),
            result != 0 ==> r is Err && r->Err_0 is HostError && r->Err_0->HostError_message@
                == text_of(old(mem).content(result)) && released(
                *old(mem),
                *final(mem),
                set![source, result],
            ),
    {
        release1(mem, source);
        if result != 0 {
            let message = consume_string_region(mem, result);
            assert(mem.regions() =~= old(mem).regions().remove_keys(set![source, result]));
            return Err(StdError::HostError { message });
        }
        Ok(Addr::unchecked(input))
    }

    /// Stages a canonicalization: the input goes out, and a region of
    /// `CANONICAL_ADDRESS_BUFFER_LENGTH` bytes is reserved for the answer.
    pub fn prepare_addr_canonicalize(&self, mem: &mut Memory, input: &str) -> (r: Result<
        (u32, u32),
        StdError,
    >)
        requires
            old(mem).wf(),
            old(mem).room(2, input.spec_bytes().len() + CANONICAL_ADDRESS_BUFFER_LENGTH as nat),
        ensures
            input.spec_bytes().len() > MAX_HUMAN_ADDRESS_INPUT ==> r == Err::<(u32, u32), StdError>(
                StdError::InputTooLong,
            ) && *final(mem) == *old(mem),
            input.spec_bytes().len() <= MAX_HUMAN_ADDRESS_INPUT ==> r is Ok && reserved_after(
                *old(mem),
                *final(mem),
                r->Ok_0,
                input.spec_bytes(),
                CANONICAL_ADDRESS_BUFFER_LENGTH,
            ),
    {
        let bytes = input.as_bytes();
        if bytes.len() > MAX_HUMAN_ADDRESS_INPUT {
            return Err(StdError::InputTooLong);
        }
        let send = mem.build_region(bytes);
        let canon = mem.allocate(CANONICAL_ADDRESS_BUFFER_LENGTH);
        Ok((send, canon))
    }

    /// Finishes a canonicalization whose host result was `result`: the bytes
    /// the host wrote where it is zero, else the host's message as the error.
    pub fn complete_addr_canonicalize(&self, mem: &mut Memory, staged: (u32, u32), result: u32) -> (r:
        Result<CanonicalAddr, StdError>)
        requires
            old(mem).wf(),
            old(mem).live(staged.0),
            old(mem).live(staged.1),
            staged.0 != staged.1,
            result == 0 || (old(mem).live(result) && result != staged.0 && result != staged.1),
        ensures
            result == 0 ==> r is Ok && r->Ok_0@ == old(mem).content(staged.1) && released(
                *old(mem),
                *final(mem),
                set![staged.0, staged.1],
            ),
            result != 0 ==> r is Err && r->Err_0 is HostError && r->Err_0->HostError_message@
                == text_of(old(mem).content(result)) && released(
                *old(mem),
                *final(mem),
                set![staged.0, staged.1, result],
            ),
    {
        release1(mem, staged.0);
        if result != 0 {
            release1(mem, staged.1);
            let message = consume_string_region(mem, result);
            assert(mem.regions() =~= old(mem).regions().remove_keys(
                set![staged.0, staged.1, result],
            ));
            return Err(StdError::HostError { message });
        }
        let out = mem.consume_region(staged.1);
        assert(mem.regions() =~= old(mem).regions().remove_keys(set![staged.0, staged.1]));
        Ok(CanonicalAddr::new(out))
    }

    /// Stages a humanization: the canonical address goes out, and a region of
    /// `HUMAN_ADDRESS_BUFFER_LENGTH` bytes is reserved for the answer.
    pub fn prepare_addr_humanize(&self, mem: &mut Memory, canonical: &CanonicalAddr) -> (r: (
        u32,
        u32,
    ))
        requires
            old(mem).wf(),
            old(mem).room(2, canonical@.len() + HUMAN_ADDRESS_BUFFER_LENGTH as nat),
        ensures
            reserved_after(*old(mem), *final(mem), r, canonical@, HUMAN_ADDRESS_BUFFER_LENGTH),
    {
        let send = mem.build_region(canonical.as_slice());
        let human = mem.allocate(HUMAN_ADDRESS_BUFFER_LENGTH);
        (send, human)
    }

    /// Finishes a humanization whose host result was `result`: the text the
    /// host wrote where it is zero, else the host's message as the error.
    pub fn complete_addr_humanize(&self, mem: &mut Memory, staged: (u32, u32), result: u32) -> (r:
        Result<Addr, StdError>)
        requires
            old(mem).wf(),
            old(mem).live(staged.0),
            old(mem).live(staged.1),
            staged.0 != staged.1,
            result == 0 || (old(mem).live(result) && result != staged.0 && result != staged.1),
        ensures
            result == 0 ==> r is Ok && r->Ok_0@ == text_of(old(mem).content(staged.1)) && released(
                *old(mem),
                *final(mem),
                set![staged.0, staged.1],
            ),
            result != 0 ==> r is Err && r->Err_0 is HostError && r->Err_0->HostError_message@
                == text_of(old(mem).content(result)) && released(
                *old(mem),
                *final(mem),
                set![staged.0, staged.1, result],
            ),
    {
        release1(mem, staged.0);
        if result != 0 {
            release1(mem, staged.1);
            let message = consume_string_region(mem, result);
            assert(mem.regions() =~= old(mem).regions().remove_keys(
                set![staged.0, staged.1, result],
            ));
            return Err(StdError::HostError { message });
        }
        let address = consume_string_region(mem, staged.1);
        assert(mem.regions() =~= old(mem).regions().remove_keys(set![staged.0, staged.1]));
        Ok(Addr::from_string(address))
    }

    /// Stages a signature check, secp256k1 or ed25519: the message (or its
    /// hash), the signature and the public key go out in that order.
    pub fn prepare_verify(
        &self,
        mem: &mut Memory,
        message: &[u8],
        signature: &[u8],
        public_key: &[u8],
    ) -> (r: (u32, u32, u32))
        requires
            old(mem).wf(),
            old(mem).room(3, message@.len() + signature@.len() + public_key@.len()),
        ensures
            sent3(*old(mem), *final(mem), r, message@, signature@, public_key@),
    {
        send3(mem, message, signature, public_key)
    }

    /// Finishes a secp256k1 check whose host result was `result`.
    pub fn complete_secp256k1_verify(&self, mem: &mut Memory, staged: (u32, u32, u32), result: u32) -> (r:
        HostReply<Result<bool, VerificationError>>)
        requires
            old(mem).wf(),
            old(mem).live(staged.0),
            old(mem).live(staged.1),
            old(mem).live(staged.2),
            staged.0 != staged.1 && staged.0 != staged.2 && staged.1 != staged.2,
        ensures
            r == secp256k1_verify_table(result),
            released(*old(mem), *final(mem), set![staged.0, staged.1, staged.2]),
    {
        release3(mem, staged);
        secp256k1_verify_outcome(result)
    }

    /// Finishes an ed25519 check, single or batched, whose host result was `result`.
    pub fn complete_ed25519_verify(&self, mem: &mut Memory, staged: (u32, u32, u32), result: u32) -> (r:
        HostReply<Result<bool, VerificationError>>)
        requires
            old(mem).wf(),
            old(mem).live(staged.0),
            old(mem).live(staged.1),
            old(mem).live(staged.2),
            staged.0 != staged.1 && staged.0 != staged.2 && staged.1 != staged.2,
        ensures
            r == ed25519_verify_table(result),
            released(*old(mem), *final(mem), set![staged.0, staged.1, staged.2]),
    {
        release3(mem, staged);
        ed25519_verify_outcome(result)
    }

    /// Stages a batched ed25519 check: each list goes out in the sections encoding.
    pub fn prepare_ed25519_batch_verify(
        &self,
        mem: &mut Memory,
        messages: &Vec<Vec<u8>>,
        signatures: &Vec<Vec<u8>>,
        public_keys: &Vec<Vec<u8>>,
    ) -> (r: (u32, u32, u32))
        requires
            old(mem).wf(),
            sections_fit(views(messages@)),
            sections_fit(views(signatures@)),
            sections_fit(views(public_keys@)),
            old(mem).room(
                3,
                encoded(views(messages@)).len() + encoded(views(signatures@)).len() + encoded(
                    views(public_keys@),
                ).len(),
            ),
        ensures
            sent3(
                *old(mem),
                *final(mem),
                r,
                encoded(views(messages@)),
                encoded(views(signatures@)),
                encoded(views(public_keys@)),
            ),
    {
        let msgs = encode_sections(messages);
        let sigs = encode_sections(signatures);
        let keys = encode_sections(public_keys);
        send3(mem, msgs.as_slice(), sigs.as_slice(), keys.as_slice())
    }

    /// Stages a recovery: the message hash and the signature go out in that order.
    pub fn prepare_secp256k1_recover_pubkey(
        &self,
        mem: &mut Memory,
        message_hash: &[u8],
        signature: &[u8],
    ) -> (r: (u32, u32))
        requires
            old(mem).wf(),
            old(mem).room(2, message_hash@.len() + signature@.len()),
        ensures
            sent2(*old(mem), *final(mem), r, message_hash@, signature@),
    {
        send2(mem, message_hash, signature)
    }

    /// Finishes a recovery whose packed host result was `result`: where its
    /// code means success, the key is the region of its handle.
    pub fn complete_secp256k1_recover_pubkey(
        &self,
        mem: &mut Memory,
        staged: (u32, u32),
        result: u64,
    ) -> (r: HostReply<Result<Vec<u8>, RecoverPubkeyError>>)
        requires
            old(mem).wf(),
            old(mem).live(staged.0),
            old(mem).live(staged.1),
            staged.0 != staged.1,
            high_half(result) == 0 ==> old(mem).live(low_half(result)) && low_half(result)
                != staged.0 && low_half(result) != staged.1,
        ensures
            match recover_table(high_half(result)) {
                HostReply::Ready(Ok(())) => r is Ready && r->Ready_0 is Ok && r->Ready_0->Ok_0@
                    == old(mem).content(low_half(result)) && released(
                    *old(mem),
                    *final(mem),
                    set![staged.0, staged.1, low_half(result)],
                ),
                HostReply::Ready(Err(e)) => r == HostReply::Ready(
                    Err::<Vec<u8>, RecoverPubkeyError>(e),
                ) && released(*old(mem), *final(mem), set![staged.0, staged.1]),
                HostReply::ContractViolation { code } => r == HostReply::<
                    Result<Vec<u8>, RecoverPubkeyError>,
                >::ContractViolation { code } && released(
                    *old(mem),
                    *final(mem),
                    set![staged.0, staged.1],
                ),
            },
    {
        let code = from_high_half(result);
        let pubkey = from_low_half(result);
        release2(mem, staged);
        match recover_outcome(code) {
            HostReply::Ready(Ok(())) => {
                let key = mem.consume_region(pubkey);
                assert(mem.regions() =~= old(mem).regions().remove_keys(
                    set![staged.0, staged.1, pubkey],
                ));
                HostReply::Ready(Ok(key))
            },
            HostReply::Ready(Err(e)) => HostReply::Ready(Err(e)),
            HostReply::ContractViolation { code } => HostReply::ContractViolation { code },
        }
    }

    /// Stages a signing request, secp256k1 or ed25519: the message and the
    /// private key go out in that order.
    pub fn prepare_sign(&self, mem: &mut Memory, message: &[u8], private_key: &[u8]) -> (r: (
        u32,
        u32,
    ))
        requires
            old(mem).wf(),
            old(mem).room(2, message@.len() + private_key@.len()),
        ensures
            sent2(*old(mem), *final(mem), r, message@, private_key@),
    {
        send2(mem, message, private_key)
    }

    /// Finishes a signing request whose packed host result was `result`:
    /// where its code means success, the signature is the region of its handle.
    pub fn complete_sign(&self, mem: &mut Memory, staged: (u32, u32), result: u64) -> (r: Result<
        Vec<u8>,
        SigningError,
    >)
        requires
            old(mem).wf(),
            old(mem).live(staged.0),
            old(mem).live(staged.1),
            staged.0 != staged.1,
            high_half(result) == 0 ==> old(mem).live(low_half(result)) && low_half(result)
                != staged.0 && low_half(result) != staged.1,
        ensures
            match signing_table(high_half(result)) {
                Ok(()) => r is Ok && r->Ok_0@ == old(mem).content(low_half(result)) && released(
                    *old(mem),
                    *final(mem),
                    set![staged.0, staged.1, low_half(result)],
                ),
                Err(e) => r == Err::<Vec<u8>, SigningError>(e) && released(
                    *old(mem),
                    *final(mem),
                    set![staged.0, staged.1],
                ),
            },
    {
        let code = from_high_half(result);
        let signature = from_low_half(result);
        release2(mem, staged);
        match signing_outcome(code) {
            Ok(()) => {
                let sig = mem.consume_region(signature);
                assert(mem.regions() =~= old(mem).regions().remove_keys(
                    set![staged.0, staged.1, signature],
                ));
                Ok(sig)
            },
            Err(e) => Err(e),
        }
    }

    /// Stages a debug message: its bytes go out as a region.
    pub fn prepare_debug(&self, mem: &mut Memory, message: &str) -> (h: u32)
        requires
            old(mem).wf(),
            old(mem).room(1, message.spec_bytes().len()),
        ensures
            Memory::built(*old(mem), *final(mem), h, message.spec_bytes()),
    {
        mem.build_region(message.as_bytes())
    }

    /// Finishes a send-only call, such as a debug message: its region is released.
    pub fn complete_debug(&self, mem: &mut Memory, h: u32)
        requires
            old(mem).wf(),
            old(mem).live(h),
        ensures
            released(*old(mem), *final(mem), set![h]),
    {
        release1(mem, h)
    }

    /// The gas left, from the host's answer; zero is taken as an error.
    pub fn complete_check_gas(&self, result: u64) -> (r: Result<u64, StdError>)
        ensures
            result == 0 ==> r == Err::<u64, StdError>(StdError::GasUnavailable),
            result != 0 ==> r == Ok::<u64, StdError>(result),
    {
        if result == 0 {
            return Err(StdError::GasUnavailable);
        }
        Ok(result)
    }

    /// Whether gas was burnt, from the host's answer; a nonzero code is the error.
    pub fn complete_gas_evaporate(&self, result: u32) -> (r: Result<(), StdError>)
        ensures
            result == 0 ==> r == Ok::<(), StdError>(()),
            result != 0 ==> r == Err::<(), StdError>(StdError::EvaporateFailed { code: result }),
    {
        if result != 0 {
            return Err(StdError::EvaporateFailed { code: result });
        }
        Ok(())
    }
}

/// The status code of a packed dual return.
pub open spec fn high_half(v: u64) -> u32 {
    (v as int / 0x1_0000_0000) as u32
}

/// The handle of a packed dual return.
pub open spec fn low_half(v: u64) -> u32 {
    (v as int % 0x1_0000_0000) as u32
}

/// `new` is `old` with `bytes` sent out under `h.0` and a region of
/// `capacity` bytes, none in use, reserved under `h.1`.
pub open spec fn reserved_after(old: Memory, new: Memory, h: (u32, u32), bytes: Seq<u8>, capacity: u32) -> bool {
    &&& new.wf()
    &&& h.0 == old.next_handle() && h.1 == h.0 + 1
    &&& new.next_handle() == old.next_handle() + 2
    &&& new.regions() == old.regions().insert(h.0, crate::memory::sent_entry(old.next_offset(), bytes)).insert(
        h.1,
        (
            crate::memory::Region {
                offset: (old.next_offset() + bytes.len()) as u32,
                capacity,
                length: 0,
            },
            Seq::empty(),
        ),
    )
}

} // verus!
