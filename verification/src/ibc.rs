//! The IBC transfer adapters: ICS-20 packets, the denomination that a received
//! packet's coins have on this chain, the acknowledgement identifiers under which
//! the recovery addresses are kept, and what the adapters do when a transfer's
//! acknowledgement, error or timeout comes back.

use vstd::prelude::*;
use vstd::string::StringExecFns;
use vstd::utf8::{decode_utf8, valid_utf8};
use crate::asset::Coin;
use crate::decimal::{parse_u128_error_prefix, spec_parse_u128, uint128_from_str};
use crate::error::{ContractError, StdError};
use crate::strings::{chars_of, contains, spec_contains, spec_starts_with, starts_with};
use vstd::string::StrSliceExecFns;

verus! {

/// The SHA-256 digest of `data`.
pub uninterp spec fn sha256_digest(data: Seq<u8>) -> Seq<u8>;

/// `Sha256::digest` of `sha2`: claims the digest of the bytes given, 32 bytes long.
#[verifier::external_body]
fn sha256(data: &[u8]) -> (r: Vec<u8>)
    ensures
        r@ == sha256_digest(data@),
        r@.len() == 32,
{
    <sha2::Sha256 as sha2::Digest>::digest(data).to_vec()
}

/// The lowercase hexadecimal digit of `v < 16`.
pub open spec fn hex_digit(v: u8) -> char {
    if v < 10 {
        (('0' as u8) + v) as char
    } else {
        (('a' as u8) + v - 10) as char
    }
}

/// The lowercase hexadecimal text of `bytes`, two digits per byte, high digit first.
pub open spec fn spec_hex_lower(bytes: Seq<u8>) -> Seq<char>
    decreases bytes.len(),
{
    if bytes.len() == 0 {
        Seq::empty()
    } else {
        seq![hex_digit(bytes[0] / 16), hex_digit(bytes[0] % 16)] + spec_hex_lower(bytes.drop_first())
    }
}

/// `hex::encode`: claims the lowercase hexadecimal text of the bytes.
#[verifier::external_body]
fn hex_encode(data: &[u8]) -> (r: String)
    ensures
        r@ == spec_hex_lower(data@),
{
    hex::encode(data)
}

/// The text that `String::from_utf8_lossy` gives for `bytes`.
pub uninterp spec fn utf8_lossy(bytes: Seq<u8>) -> Seq<char>;

/// `String::from_utf8_lossy`: claims the decoded text for valid UTF-8, and names the
/// result (invalid sequences replaced by U+FFFD) otherwise.
#[verifier::external_body]
fn from_utf8_lossy(bytes: &[u8]) -> (r: String)
    ensures
        r@ == utf8_lossy(bytes@),
        valid_utf8(bytes@) ==> r@ == decode_utf8(bytes@),
{
    String::from_utf8_lossy(bytes).into_owned()
}

/// The ICS-20 packet of a fungible token transfer.
#[derive(Debug, Clone, PartialEq, Eq)]
pub struct Ics20Packet {
    pub amount: u128,
    pub denom: String,
    pub receiver: String,
    pub sender: String,
    pub memo: Option<String>,
}

impl Ics20Packet {
    /// The packet of a transfer of `amount` of `denom` from `sender` to `receiver`.
    pub fn new(amount: u128, denom: &str, sender: &str, receiver: &str, memo: Option<String>) -> (p: Ics20Packet)
        ensures
            p.amount == amount,
            p.denom@ == denom@,
            p.sender@ == sender@,
            p.receiver@ == receiver@,
            p.memo == memo,
    {
        Ics20Packet { denom: denom.to_owned(), amount, sender: sender.to_owned(), receiver: receiver.to_owned(), memo }
    }
}

/// When a packet times out: at a block height of a revision, at a time, or both.
#[derive(Debug, Clone, PartialEq, Eq)]
pub struct IbcTimeout {
    pub block: Option<(u64, u64)>,
    pub timestamp_nanos: Option<u64>,
}

/// A packet to send on a channel.
#[derive(Debug, Clone, PartialEq, Eq)]
pub struct IbcSendPacket {
    pub channel_id: String,
    pub packet: Ics20Packet,
    pub timeout: IbcTimeout,
}

/// The packet for an ICS-20 transfer on `src_channel`; the denomination is sent as
/// given (an IBC denomination keeps its `port/channel/` trace so that it is burnt
/// when it returns to its origin).
pub fn build_ibc_send_packet(
    amount: u128,
    denom: &str,
    sender: &str,
    receiver: &str,
    memo: Option<String>,
    src_channel: &str,
    timeout: IbcTimeout,
) -> (r: IbcSendPacket)
    ensures
        r.channel_id@ == src_channel@,
        r.packet.amount == amount,
        r.packet.denom@ == denom@,
        r.packet.sender@ == sender@,
        r.packet.receiver@ == receiver@,
        r.packet.memo == memo,
        r.timeout == timeout,
{
    let packet = Ics20Packet::new(amount, denom, sender, receiver, memo);
    IbcSendPacket { channel_id: src_channel.to_owned(), packet, timeout }
}

/// `s` with every leading repetition of the non-empty `p` removed.
pub open spec fn spec_trim_start_matches(s: Seq<char>, p: Seq<char>) -> Seq<char>
    decreases s.len(),
{
    if p.len() > 0 && spec_starts_with(s, p) {
        spec_trim_start_matches(s.skip(p.len() as int), p)
    } else {
        s
    }
}

/// The trace prefix `port/channel/` of an IBC endpoint.
pub open spec fn trace_prefix(port: Seq<char>, channel: Seq<char>) -> Seq<char> {
    port + "/"@ + channel + "/"@
}

/// The denomination on this chain of the coins of a received packet: a denomination
/// that comes back to its origin (it starts with the packet source's trace) loses
/// that trace; any other becomes `ibc/` followed by the hexadecimal SHA-256 of its
/// trace through this chain's end of the channel.
pub open spec fn spec_recv_denom(
    src_port: Seq<char>,
    src_channel: Seq<char>,
    dest_port: Seq<char>,
    dest_channel: Seq<char>,
    packet_denom: Seq<char>,
) -> Seq<char> {
    let prefix = trace_prefix(src_port, src_channel);
    if spec_starts_with(packet_denom, prefix) {
        spec_trim_start_matches(packet_denom, prefix)
    } else {
        "ibc/"@ + spec_hex_lower(sha256_digest(vstd::utf8::encode_utf8(trace_prefix(dest_port, dest_channel) + packet_denom)))
    }
}

/// A denomination coming back to its origin loses the trace it gained on the way
/// out: the coins of a packet whose denomination is the source's trace followed by
/// a base denomination (one that does not itself begin with that trace) are
/// received as that base denomination.
pub proof fn lemma_returning_denom_loses_trace(
    src_port: Seq<char>,
    src_channel: Seq<char>,
    dest_port: Seq<char>,
    dest_channel: Seq<char>,
    base: Seq<char>,
)
    requires
        !spec_starts_with(base, trace_prefix(src_port, src_channel)),
    ensures
        spec_recv_denom(src_port, src_channel, dest_port, dest_channel, trace_prefix(src_port, src_channel) + base)
            == base,
{
    let p = trace_prefix(src_port, src_channel);
    let d = p + base;
    reveal_strlit("/");
    assert(p.len() > 0);
    assert(d.take(p.len() as int) =~= p);
    assert(spec_starts_with(d, p));
    assert(d.skip(p.len() as int) =~= base);
    assert(spec_trim_start_matches(d, p) == spec_trim_start_matches(base, p));
    assert(spec_trim_start_matches(base, p) == base);
}

/// Removes every leading repetition of the non-empty `p` from `s`.
pub fn trim_start_matches(s: &str, p: &str) -> (r: String)
    requires
        p@.len() > 0,
    ensures
        r@ == spec_trim_start_matches(s@, p@),
    decreases s@.len(),
{
    if starts_with(s, p) {
        let n = s.unicode_len();
        let m = p.unicode_len();
        let rest = s.substring_char(m, n);
        assert(s@.subrange(m as int, n as int) =~= s@.skip(m as int));
        trim_start_matches(rest, p)
    } else {
        s.to_owned()
    }
}

/// The denomination on this chain of the coins of a packet received from
/// `src_port`/`src_channel` on `dest_port`/`dest_channel`.
pub fn get_recv_denom(src_port: &str, src_channel: &str, dest_port: &str, dest_channel: &str, packet_denom: &str) -> (r: String)
    ensures
        r@ == spec_recv_denom(src_port@, src_channel@, dest_port@, dest_channel@, packet_denom@),
{
    let mut prefix = String::from_str(src_port);
    prefix.append("/");
    prefix.append(src_channel);
    prefix.append("/");
    proof {
        reveal_strlit("/");
        assert(prefix@.len() > 0);
    }
    if starts_with(packet_denom, prefix.as_str()) {
        return trim_start_matches(packet_denom, prefix.as_str());
    }
    let mut trace = String::from_str(dest_port);
    trace.append("/");
    trace.append(dest_channel);
    trace.append("/");
    trace.append(packet_denom);
    let digest = sha256(trace.as_str().as_bytes());
    let hex = hex_encode(digest.as_slice());
    let mut denom = String::from_str("ibc/");
    denom.append(hex.as_str());
    denom
}

/// The destination callback handles packets received on the transfer port only.
pub fn check_transfer_port(dest_port: &str) -> (r: Result<(), ContractError>)
    ensures
        dest_port@ == "transfer"@ ==> r is Ok,
        dest_port@ != "transfer"@ ==> (r matches Err(ContractError::Std(StdError::GenericErr { msg }))
            && msg@ == "only want to handle transfer packets"@),
{
    let port = String::from_str(dest_port);
    let transfer = String::from_str("transfer");
    if port == transfer {
        Ok(())
    } else {
        Err(ContractError::Std(StdError::generic_err("only want to handle transfer packets")))
    }
}

/// The coin that the destination callback sends with the message it executes: its
/// denomination is the packet's denomination on this chain, and its amount is read
/// from that same denomination as a number (which fails unless it is one). The
/// amount is taken from the denomination and not from the packet's amount: that is
/// what the adapter does, and it is kept as it is, so a packet of an ordinary
/// denomination makes the callback fail.
pub fn destination_callback_coin(
    src_port: &str,
    src_channel: &str,
    dest_port: &str,
    dest_channel: &str,
    packet_denom: &str,
) -> (r: Result<Coin, ContractError>)
    ensures
        ({
            let d = spec_recv_denom(src_port@, src_channel@, dest_port@, dest_channel@, packet_denom@);
            match spec_parse_u128(d) {
                Some(v) => r matches Ok(c) && c.denom@ == d && c.amount == v,
                None => r matches Err(ContractError::Std(StdError::GenericErr { msg })) && spec_starts_with(
                    msg@,
                    parse_u128_error_prefix(),
                ),
            }
        }),
{
    let recv_denom = get_recv_denom(src_port, src_channel, dest_port, dest_channel, packet_denom);
    match uint128_from_str(recv_denom.as_str()) {
        Ok(amount) => Ok(Coin { denom: recv_denom, amount }),
        Err(e) => Err(ContractError::Std(e)),
    }
}

/// The key under which a transfer's recovery address is kept: its source channel and
/// sequence number.
pub fn get_ack_id(source_channel: &Option<String>, sequence: Option<u64>) -> (r: Result<(String, u64), ContractError>)
    ensures
        source_channel is None ==> r == Err::<(String, u64), ContractError>(ContractError::ChannelIDNotFound),
        source_channel is Some && sequence is None ==> r == Err::<(String, u64), ContractError>(
            ContractError::SequenceNotFound,
        ),
        source_channel is Some && sequence is Some ==> (r matches Ok((c, s)) && c@ == source_channel->Some_0@
            && s == sequence->Some_0),
{
    let channel = match source_channel {
        Some(c) => c.clone(),
        None => {
            return Err(ContractError::ChannelIDNotFound);
        },
    };
    let seq = match sequence {
        Some(s) => s,
        None => {
            return Err(ContractError::SequenceNotFound);
        },
    };
    Ok((channel, seq))
}

/// The IBC fees offered with a transfer.
#[derive(Debug, Clone, PartialEq, Eq)]
pub struct IbcFee {
    pub recv_fee: Vec<Coin>,
    pub ack_fee: Vec<Coin>,
    pub timeout_fee: Vec<Coin>,
}

/// A hexadecimal digit, in either case.
pub open spec fn is_hex_char(c: char) -> bool {
    (48 <= (c as u32) && (c as u32) <= 57) || (97 <= (c as u32) && (c as u32) <= 102) || (65 <= (c as u32) && (c as u32) <= 70)
}

/// The digits of an EVM address as written: the text after a `0x` prefix, if any.
pub open spec fn evm_address_digits(s: Seq<char>) -> Seq<char> {
    if s.len() >= 2 && s[0] == '0' && s[1] == 'x' {
        s.skip(2)
    } else {
        s
    }
}

/// `s` is an EVM address: 20 bytes in hexadecimal, optionally after `0x`.
pub open spec fn is_evm_address(s: Seq<char>) -> bool {
    let d = evm_address_digits(s);
    d.len() == 40 && forall|i: int| 0 <= i < d.len() ==> is_hex_char(#[trigger] d[i])
}

/// The encoding of a transfer whose packet is ABI-encoded for an EVM chain.
pub open spec fn solidity_abi_encoding() -> Seq<char> {
    "application/x-solidity-abi"@
}

fn hex_char(c: char) -> (r: bool)
    ensures
        r == is_hex_char(c),
{
    let u = c as u32;
    (48 <= u && u <= 57) || (97 <= u && u <= 102) || (65 <= u && u <= 70)
}

/// Checks a transfer request of an adapter that pays no IBC fees: the fee vectors,
/// if given, must all be empty, and when the packet is ABI-encoded for an EVM chain
/// the receiver must be an EVM address.
pub fn check_transfer_request(fee: &Option<IbcFee>, receiver: &str, encoding: &Option<String>) -> (r: Result<
    (),
    ContractError,
>)
    ensures
        (fee matches Some(f) && (f.recv_fee@.len() > 0 || f.ack_fee@.len() > 0 || f.timeout_fee@.len() > 0)) ==> r
            == Err::<(), ContractError>(ContractError::IbcFeesNotSupported),
        !(fee matches Some(f) && (f.recv_fee@.len() > 0 || f.ack_fee@.len() > 0 || f.timeout_fee@.len() > 0)) ==> if (
        encoding matches Some(e) && e@ == solidity_abi_encoding()) && !is_evm_address(receiver@) {
            r == Err::<(), ContractError>(ContractError::InvalidEvmAddress)
        } else {
            r is Ok
        },
{
    if let Some(f) = fee {
        if f.recv_fee.len() > 0 || f.ack_fee.len() > 0 || f.timeout_fee.len() > 0 {
            return Err(ContractError::IbcFeesNotSupported);
        }
    }
    let abi = match encoding {
        Some(e) => {
            let target = String::from_str("application/x-solidity-abi");
            *e == target
        },
        None => false,
    };
    if !abi {
        return Ok(());
    }
    let cs = chars_of(receiver);
    let n = cs.len();
    let start: usize = if n >= 2 && cs[0] == '0' && cs[1] == 'x' {
        2
    } else {
        0
    };
    assert(evm_address_digits(receiver@) =~= receiver@.skip(start as int));
    if n - start != 40 {
        return Err(ContractError::InvalidEvmAddress);
    }
    let mut i: usize = start;
    while i < n
        invariant
            cs@ == receiver@,
            n == cs@.len(),
            start <= i <= n,
            n - start == 40,
            evm_address_digits(receiver@) == receiver@.skip(start as int),
            !(fee matches Some(f) && (f.recv_fee@.len() > 0 || f.ack_fee@.len() > 0 || f.timeout_fee@.len() > 0)),
            encoding matches Some(e) && e@ == solidity_abi_encoding(),
            forall|j: int| start <= j < i ==> is_hex_char(#[trigger] cs@[j]),
        decreases n - i,
    {
        if !hex_char(cs[i]) {
            assert(evm_address_digits(receiver@)[i - start] == cs@[i as int]);
            return Err(ContractError::InvalidEvmAddress);
        }
        i = i + 1;
    }
    assert forall|k: int| 0 <= k < evm_address_digits(receiver@).len() implies is_hex_char(
        #[trigger] evm_address_digits(receiver@)[k],
    ) by {
        assert(evm_address_digits(receiver@)[k] == cs@[k + start]);
    }
    Ok(())
}

/// The transfer adapters require IBC fees on Neutron.
pub fn require_ibc_fee<T>(fee: Option<T>) -> (r: Result<T, ContractError>)
    ensures
        fee is None ==> r == Err::<T, ContractError>(ContractError::IbcFeesRequired),
        fee is Some ==> r == Ok::<T, ContractError>(fee->Some_0),
{
    match fee {
        Some(f) => Ok(f),
        None => Err(ContractError::IbcFeesRequired),
    }
}

/// Why a transfer's funds come back.
#[derive(Debug, Clone, Copy, PartialEq, Eq)]
pub enum SourceCallbackType {
    Response,
    Error,
    Timeout,
}

/// The acknowledgement that the receiving chain writes for a successful transfer.
pub open spec fn success_ack() -> Seq<char> {
    "{\"result\":\"AQ==\"}"@
}

/// What the adapter does with a source callback.
#[derive(Debug, Clone, PartialEq, Eq)]
pub enum SourceCallbackAction {
    /// The transfer succeeded: forget its recovery address.
    Forget { channel: String, sequence: u64 },
    /// The transfer failed or timed out: refund the adapter's funds to the recovery
    /// address kept for it, and forget it.
    Refund { channel: String, sequence: u64, reason: SourceCallbackType },
}

/// The action for an acknowledgement (`Some(data)`) or a timeout (`None`) of the
/// transfer sent on `channel` as `sequence`: an acknowledgement whose text holds the
/// success acknowledgement ends the transfer; any other acknowledgement, and a
/// timeout, refund it.
pub fn ibc_source_callback(ack: Option<Vec<u8>>, channel: String, sequence: u64) -> (r: SourceCallbackAction)
    ensures
        match ack {
            Some(data) => if spec_contains(utf8_lossy(data@), success_ack()) {
                r matches SourceCallbackAction::Forget { channel: c, sequence: s } && c == channel && s == sequence
            } else {
                r matches SourceCallbackAction::Refund { channel: c, sequence: s, reason }
                    && c == channel && s == sequence && reason == SourceCallbackType::Error
            },
            None => r matches SourceCallbackAction::Refund { channel: c, sequence: s, reason }
                && c == channel && s == sequence && reason == SourceCallbackType::Timeout,
        },
{
    match ack {
        Some(data) => {
            let text = from_utf8_lossy(data.as_slice());
            if contains(text.as_str(), "{\"result\":\"AQ==\"}") {
                SourceCallbackAction::Forget { channel, sequence }
            } else {
                SourceCallbackAction::Refund { channel, sequence, reason: SourceCallbackType::Error }
            }
        },
        None => SourceCallbackAction::Refund { channel, sequence, reason: SourceCallbackType::Timeout },
    }
}

} // verus!
