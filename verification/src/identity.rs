//! Derivation of stable network identifiers from the device identity.
//!
//! A client identifier and a device topic prefix are pure functions of the
//! application name, the hardware MAC address and a role tag, so that a
//! device presents the same identity on every boot and reconnect. The
//! identifiers live in fixed-capacity buffers; a derived identity that
//! would not fit is a fatal construction error, never a truncation.
use vstd::prelude::*;
use vstd::string::*;

verus! {

/// A hardware MAC address: the six octets of the device's Ethernet interface.
#[derive(Copy, Clone, Debug)]
pub struct MacAddress {
    pub octets: [u8; 6],
}

/// Identity derivation failure.
#[derive(Copy, Clone, Debug, PartialEq, Eq, Structural)]
pub enum IdentityError {
    /// The derived identifier exceeds its fixed buffer capacity. The device
    /// must not come up with a truncated or ambiguous identity.
    IdentityOverflow,
}

/// Capacity, in bytes, of a client identifier buffer.
pub const CLIENT_ID_CAPACITY: usize = 64;

/// Capacity, in bytes, of a device topic prefix buffer.
pub const PREFIX_CAPACITY: usize = 128;

/// ASCII code of the dash separating identity fields.
pub const DASH: u8 = 0x2d;

/// ASCII code of the slash separating topic levels.
pub const SLASH: u8 = 0x2f;

/// ASCII code of the lowercase hexadecimal digit for a value below 16.
pub open spec fn hex_digit(v: u8) -> u8 {
    if v < 10 {
        (0x30 + v) as u8
    } else {
        (0x57 + v) as u8
    }
}

/// The two lowercase hexadecimal digits of one octet, high digit first.
pub open spec fn byte_hex(b: u8) -> Seq<u8> {
    seq![hex_digit(b / 16), hex_digit(b % 16)]
}

/// A MAC address printed as six lowercase hex pairs joined by dashes,
/// as in `00-11-22-33-44-55`: 17 bytes in all.
pub open spec fn mac_bytes(mac: MacAddress) -> Seq<u8> {
    byte_hex(mac.octets[0]) + seq![DASH] + byte_hex(mac.octets[1]) + seq![DASH] + byte_hex(
        mac.octets[2],
    ) + seq![DASH] + byte_hex(mac.octets[3]) + seq![DASH] + byte_hex(mac.octets[4]) + seq![DASH]
        + byte_hex(mac.octets[5])
}

/// The client identifier `<app>-<mac>-<role>`.
pub open spec fn client_id_bytes(app: Seq<u8>, role: Seq<u8>, mac: MacAddress) -> Seq<u8> {
    app + seq![DASH] + mac_bytes(mac) + seq![DASH] + role
}

/// The bytes of the literal topic root `dt/sinara/`.
pub open spec fn topic_root_bytes() -> Seq<u8> {
    seq![0x64u8, 0x74, SLASH, 0x73, 0x69, 0x6e, 0x61, 0x72, 0x61, SLASH]
}

/// The device topic prefix `dt/sinara/<app>/<mac>`.
pub open spec fn prefix_bytes(app: Seq<u8>, mac: MacAddress) -> Seq<u8> {
    topic_root_bytes() + app + seq![SLASH] + mac_bytes(mac)
}

#[verifier::external_type_specification]
#[verifier::external_body]
pub struct ExHeaplessString<const N: usize>(heapless::String<N>);

/// The bytes held by a fixed-capacity 64-byte identifier buffer.
pub uninterp spec fn id_buffer_bytes(s: heapless::String<64>) -> Seq<u8>;

/// The bytes held by a fixed-capacity 128-byte prefix buffer.
pub uninterp spec fn prefix_buffer_bytes(s: heapless::String<128>) -> Seq<u8>;

/// Relies on heapless::String::new: constructs an empty fixed-capacity string.
#[verifier::external_body]
fn id_buffer_new() -> (r: heapless::String<64>)
    ensures
        id_buffer_bytes(r) == Seq::<u8>::empty(),
{
    heapless::String::new()
}

/// Relies on heapless::String::push: appends one ASCII character when it fits
/// within the capacity, and otherwise errors leaving the buffer unchanged.
#[verifier::external_body]
fn id_buffer_push_ascii(s: &mut heapless::String<64>, b: u8) -> (r: Result<(), ()>)
    requires
        b < 128,
    ensures
        r is Ok <==> id_buffer_bytes(*old(s)).len() + 1 <= 64,
        r is Ok ==> id_buffer_bytes(*final(s)) == id_buffer_bytes(*old(s)).push(b),
        r is Err ==> id_buffer_bytes(*final(s)) == id_buffer_bytes(*old(s)),
{
    s.push(b as char)
}

/// Relies on heapless::String::push_str: appends the piece's bytes when they
/// all fit within the capacity, and otherwise errors leaving the buffer
/// unchanged.
#[verifier::external_body]
fn id_buffer_push_str(s: &mut heapless::String<64>, piece: &str) -> (r: Result<(), ()>)
    ensures
        r is Ok <==> id_buffer_bytes(*old(s)).len() + piece.spec_bytes().len() <= 64,
        r is Ok ==> id_buffer_bytes(*final(s)) == id_buffer_bytes(*old(s)) + piece.spec_bytes(),
        r is Err ==> id_buffer_bytes(*final(s)) == id_buffer_bytes(*old(s)),
{
    s.push_str(piece)
}

/// Relies on heapless::String::new: constructs an empty fixed-capacity string.
#[verifier::external_body]
fn prefix_buffer_new() -> (r: heapless::String<128>)
    ensures
        prefix_buffer_bytes(r) == Seq::<u8>::empty(),
{
    heapless::String::new()
}

/// Relies on heapless::String::push: appends one ASCII character when it fits
/// within the capacity, and otherwise errors leaving the buffer unchanged.
#[verifier::external_body]
fn prefix_buffer_push_ascii(s: &mut heapless::String<128>, b: u8) -> (r: Result<(), ()>)
    requires
        b < 128,
    ensures
        r is Ok <==> prefix_buffer_bytes(*old(s)).len() + 1 <= 128,
        r is Ok ==> prefix_buffer_bytes(*final(s)) == prefix_buffer_bytes(*old(s)).push(b),
        r is Err ==> prefix_buffer_bytes(*final(s)) == prefix_buffer_bytes(*old(s)),
{
    s.push(b as char)
}

/// Relies on heapless::String::push_str: appends the piece's bytes when they
/// all fit within the capacity, and otherwise errors leaving the buffer
/// unchanged.
#[verifier::external_body]
fn prefix_buffer_push_str(s: &mut heapless::String<128>, piece: &str) -> (r: Result<(), ()>)
    ensures
        r is Ok <==> prefix_buffer_bytes(*old(s)).len() + piece.spec_bytes().len() <= 128,
        r is Ok ==> prefix_buffer_bytes(*final(s)) == prefix_buffer_bytes(*old(s))
            + piece.spec_bytes(),
        r is Err ==> prefix_buffer_bytes(*final(s)) == prefix_buffer_bytes(*old(s)),
{
    s.push_str(piece)
}

/// ASCII code of the lowercase hexadecimal digit for `v`.
fn hex_digit_byte(v: u8) -> (r: u8)
    requires
        v < 16,
    ensures
        r == hex_digit(v),
        r < 128,
{
    if v < 10 {
        0x30 + v
    } else {
        0x57 + v
    }
}

/// Appends the two hex digits of one octet to a client identifier buffer.
fn id_push_byte_hex(s: &mut heapless::String<64>, b: u8)
    requires
        id_buffer_bytes(*old(s)).len() + 2 <= 64,
    ensures
        id_buffer_bytes(*final(s)) == id_buffer_bytes(*old(s)) + byte_hex(b),
{
    let _ = id_buffer_push_ascii(s, hex_digit_byte(b / 16));
    let _ = id_buffer_push_ascii(s, hex_digit_byte(b % 16));
    proof {
        assert(id_buffer_bytes(*s) =~= id_buffer_bytes(*old(s)) + byte_hex(b));
    }
}

/// Appends the two hex digits of one octet to a prefix buffer.
fn prefix_push_byte_hex(s: &mut heapless::String<128>, b: u8)
    requires
        prefix_buffer_bytes(*old(s)).len() + 2 <= 128,
    ensures
        prefix_buffer_bytes(*final(s)) == prefix_buffer_bytes(*old(s)) + byte_hex(b),
{
    let _ = prefix_buffer_push_ascii(s, hex_digit_byte(b / 16));
    let _ = prefix_buffer_push_ascii(s, hex_digit_byte(b % 16));
    proof {
        assert(prefix_buffer_bytes(*s) =~= prefix_buffer_bytes(*old(s)) + byte_hex(b));
    }
}

/// Appends the dashed lowercase hex form of a MAC address to a client
/// identifier buffer.
fn id_push_mac(s: &mut heapless::String<64>, mac: &MacAddress)
    requires
        id_buffer_bytes(*old(s)).len() + 17 <= 64,
    ensures
        id_buffer_bytes(*final(s)) == id_buffer_bytes(*old(s)) + mac_bytes(*mac),
{
    id_push_byte_hex(s, mac.octets[0]);
    let _ = id_buffer_push_ascii(s, DASH);
    id_push_byte_hex(s, mac.octets[1]);
    let _ = id_buffer_push_ascii(s, DASH);
    id_push_byte_hex(s, mac.octets[2]);
    let _ = id_buffer_push_ascii(s, DASH);
    id_push_byte_hex(s, mac.octets[3]);
    let _ = id_buffer_push_ascii(s, DASH);
    id_push_byte_hex(s, mac.octets[4]);
    let _ = id_buffer_push_ascii(s, DASH);
    id_push_byte_hex(s, mac.octets[5]);
    proof {
        assert(id_buffer_bytes(*s) =~= id_buffer_bytes(*old(s)) + mac_bytes(*mac));
    }
}

/// Appends the dashed lowercase hex form of a MAC address to a prefix buffer.
fn prefix_push_mac(s: &mut heapless::String<128>, mac: &MacAddress)
    requires
        prefix_buffer_bytes(*old(s)).len() + 17 <= 128,
    ensures
        prefix_buffer_bytes(*final(s)) == prefix_buffer_bytes(*old(s)) + mac_bytes(*mac),
{
    prefix_push_byte_hex(s, mac.octets[0]);
    let _ = prefix_buffer_push_ascii(s, DASH);
    prefix_push_byte_hex(s, mac.octets[1]);
    let _ = prefix_buffer_push_ascii(s, DASH);
    prefix_push_byte_hex(s, mac.octets[2]);
    let _ = prefix_buffer_push_ascii(s, DASH);
    prefix_push_byte_hex(s, mac.octets[3]);
    let _ = prefix_buffer_push_ascii(s, DASH);
    prefix_push_byte_hex(s, mac.octets[4]);
    let _ = prefix_buffer_push_ascii(s, DASH);
    prefix_push_byte_hex(s, mac.octets[5]);
    proof {
        assert(prefix_buffer_bytes(*s) =~= prefix_buffer_bytes(*old(s)) + mac_bytes(*mac));
    }
}

/// Derives the client identifier `<app>-<mac>-<client>` for one protocol
/// client, where the MAC address is printed as six lowercase hex pairs
/// joined by dashes.
///
/// The identifier is a pure function of its inputs, so the device presents
/// the same identity on every reconnect. The dashed MAC takes 17 bytes and
/// the two separators 2, so the identifier fits its 64-byte buffer exactly
/// when the name and tag leave room for those 19; an identity that would
/// not fit is refused rather than truncated.
pub fn get_client_id(app: &str, client: &str, mac: MacAddress) -> (r: Result<
    heapless::String<64>,
    IdentityError,
>)
    ensures
        r is Ok <==> app.spec_bytes().len() + client.spec_bytes().len() + 19 <= CLIENT_ID_CAPACITY,
        r matches Ok(id) ==> id_buffer_bytes(id) == client_id_bytes(
            app.spec_bytes(),
            client.spec_bytes(),
            mac,
        ),
        r is Err ==> r == Err::<heapless::String<64>, IdentityError>(
            IdentityError::IdentityOverflow,
        ),
{
    let app_len = app.as_bytes().len();
    let client_len = client.as_bytes().len();
    if app_len > CLIENT_ID_CAPACITY || client_len > CLIENT_ID_CAPACITY || app_len + client_len + 19
        > CLIENT_ID_CAPACITY {
        return Err(IdentityError::IdentityOverflow);
    }
    let mut id = id_buffer_new();
    let _ = id_buffer_push_str(&mut id, app);
    let _ = id_buffer_push_ascii(&mut id, DASH);
    id_push_mac(&mut id, &mac);
    let _ = id_buffer_push_ascii(&mut id, DASH);
    let _ = id_buffer_push_str(&mut id, client);
    proof {
        assert(id_buffer_bytes(id) =~= client_id_bytes(
            app.spec_bytes(),
            client.spec_bytes(),
            mac,
        ));
    }
    Ok(id)
}

/// Derives the device topic prefix `dt/sinara/<app>/<mac>`, under which all
/// of the device's configuration and telemetry topics are scoped.
///
/// The prefix is a pure function of its inputs. The literal root takes 10
/// bytes, the dashed MAC 17 and the separator 1, so the prefix fits its
/// 128-byte buffer exactly when the application name leaves room for those
/// 28; a prefix that would not fit is refused rather than truncated.
pub fn get_device_prefix(app: &str, mac: MacAddress) -> (r: Result<
    heapless::String<128>,
    IdentityError,
>)
    ensures
        r is Ok <==> app.spec_bytes().len() + 28 <= PREFIX_CAPACITY,
        r matches Ok(p) ==> prefix_buffer_bytes(p) == prefix_bytes(app.spec_bytes(), mac),
        r is Err ==> r == Err::<heapless::String<128>, IdentityError>(
            IdentityError::IdentityOverflow,
        ),
{
    let app_len = app.as_bytes().len();
    if app_len > PREFIX_CAPACITY || app_len + 28 > PREFIX_CAPACITY {
        return Err(IdentityError::IdentityOverflow);
    }
    proof {
        reveal_strlit("dt/sinara/");
        assert(is_ascii("dt/sinara/"));
        is_ascii_spec_bytes("dt/sinara/");
        assert("dt/sinara/".spec_bytes() =~= topic_root_bytes());
    }
    let mut prefix = prefix_buffer_new();
    let _ = prefix_buffer_push_str(&mut prefix, "dt/sinara/");
    let _ = prefix_buffer_push_str(&mut prefix, app);
    let _ = prefix_buffer_push_ascii(&mut prefix, SLASH);
    prefix_push_mac(&mut prefix, &mac);
    proof {
        assert(prefix_buffer_bytes(prefix) =~= prefix_bytes(app.spec_bytes(), mac));
    }
    Ok(prefix)
}

/// The derived identities are deterministic and idempotent: any two
/// identifiers derived from the same application name, role tag and MAC
/// address — as the contracts of `get_client_id` and `get_device_prefix`
/// pin every successful derivation — hold the same bytes.
pub proof fn lemma_identity_deterministic(
    app: Seq<u8>,
    role: Seq<u8>,
    mac: MacAddress,
    first_id: Seq<u8>,
    second_id: Seq<u8>,
    first_prefix: Seq<u8>,
    second_prefix: Seq<u8>,
)
    requires
        first_id == client_id_bytes(app, role, mac),
        second_id == client_id_bytes(app, role, mac),
        first_prefix == prefix_bytes(app, mac),
        second_prefix == prefix_bytes(app, mac),
    ensures
        first_id == second_id,
        first_prefix == second_prefix,
{
}

} // verus!
