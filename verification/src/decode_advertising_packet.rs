use crate::error::DecodeError;
use crate::hex::{
    hex_pair, hex_reversed, lemma_hex_reversed_of_four, lemma_hex_reversed_shape, to_hex_reversed,
};
use crate::types::{
    lemma_three_bit_construct, Color, ProbeAdvertisement, ProbeAdvertisementView, ProbeMode,
    ProductType, SizedInt, ThreeBit,
};
use vstd::prelude::*;
use vstd::slice::slice_subrange;

verus! {

/// Offset of the byte that holds the product type.
pub const PRODUCT_TYPE_OFFSET: usize = 0;

/// Offset of the first of the serial number's bytes.
pub const SERIAL_NUMBER_OFFSET: usize = 1;

/// Offset just behind the last of the serial number's bytes.
pub const SERIAL_NUMBER_END: usize = 5;

/// Offset of the byte that holds the mode, the colour and the identifier.
pub const MODE_COLOR_ID_OFFSET: usize = 18;

/// Number of bytes that a packet has at least: the last byte read is the one
/// at [`MODE_COLOR_ID_OFFSET`].
pub const MIN_PACKET_LEN: usize = 19;

/// The mode's bits: bits 0 and 1 of the byte at [`MODE_COLOR_ID_OFFSET`].
pub open spec fn mode_bits(byte: u8) -> u8 {
    byte & 0b0000_0011
}

/// The colour's bits: bits 2 to 4 of the byte at [`MODE_COLOR_ID_OFFSET`],
/// moved down to the lowest place.
pub open spec fn color_bits(byte: u8) -> u8 {
    (byte & 0b0001_1100) >> 2
}

/// The identifier's bits: bits 5 to 7 of the byte at
/// [`MODE_COLOR_ID_OFFSET`], moved down to the lowest place.
pub open spec fn id_bits(byte: u8) -> u8 {
    byte >> 5
}

/// The serial number of a packet as it is written: the four bytes from
/// [`SERIAL_NUMBER_OFFSET`] on hold it least significant byte first, so the
/// last of them is spelled first.
pub open spec fn serial_number_text(packet: Seq<u8>) -> Seq<char>
    recommends
        packet.len() >= SERIAL_NUMBER_END,
{
    hex_reversed(packet.subrange(SERIAL_NUMBER_OFFSET as int, SERIAL_NUMBER_END as int))
}

/// What a buffer decodes to.
///
/// A buffer that ends before [`MIN_PACKET_LEN`] is too short whatever it
/// holds. After that the fields are read in the packet's order, and the
/// first that stands for nothing is the one reported. Bytes that hold no
/// field are not looked at.
pub open spec fn decoded(packet: Seq<u8>) -> Result<ProbeAdvertisementView, DecodeError> {
    if packet.len() < MIN_PACKET_LEN {
        Err(DecodeError::BufferTooShort { required: MIN_PACKET_LEN, actual: packet.len() as usize })
    } else {
        let product_type_byte = packet[PRODUCT_TYPE_OFFSET as int];
        let mode_color_id_byte = packet[MODE_COLOR_ID_OFFSET as int];
        match (
            ProductType::from_raw(product_type_byte),
            Color::from_bits(color_bits(mode_color_id_byte)),
        ) {
            (None, _) => Err(DecodeError::InvalidProductType(product_type_byte)),
            (Some(_), None) => Err(DecodeError::InvalidColor(color_bits(mode_color_id_byte))),
            (Some(product_type), Some(color)) => Ok(
                ProbeAdvertisementView {
                    color,
                    id: id_bits(mode_color_id_byte) as nat,
                    mode: ProbeMode::from_bits(mode_bits(mode_color_id_byte)),
                    product_type,
                    serial_number: serial_number_text(packet),
                },
            ),
        }
    }
}

/// Decodes one advertisement packet.
///
/// Returns the advertisement that `packet` holds, or the reason why it holds
/// none: see [`decoded`].
pub fn decode_advertising_packet(packet: &Vec<u8>) -> (result: Result<
    ProbeAdvertisement,
    DecodeError,
>)
    ensures
        result matches Ok(advertisement) ==> decoded(packet@) == Ok::<
            ProbeAdvertisementView,
            DecodeError,
        >(advertisement@),
        result matches Err(error) ==> decoded(packet@) == Err::<
            ProbeAdvertisementView,
            DecodeError,
        >(error),
        result matches Ok(advertisement) ==> advertisement@.wf(),
{
    proof {
        lemma_decoded_well_formed(packet@);
    }
    if packet.len() < MIN_PACKET_LEN {
        return Err(
            DecodeError::BufferTooShort { required: MIN_PACKET_LEN, actual: packet.len() },
        );
    }

    // The product type is the whole of its byte.
    let product_type_byte = packet[PRODUCT_TYPE_OFFSET];
    let product_type = match product_type_byte {
        0 => ProductType::Unknown,
        1 => ProductType::PredictiveProbe,
        2 => ProductType::KitchenTimer,
        _ => {
            return Err(DecodeError::InvalidProductType(product_type_byte));
        },
    };

    // The serial number is stored least significant byte first.
    let serial_number = to_hex_reversed(
        slice_subrange(packet.as_slice(), SERIAL_NUMBER_OFFSET, SERIAL_NUMBER_END),
    );

    // The mode, the colour and the identifier share one byte.
    let mode_color_id_byte = packet[MODE_COLOR_ID_OFFSET];

    let mode_bits = mode_color_id_byte & 0b0000_0011;
    let mode = match mode_bits {
        0 => ProbeMode::Normal,
        1 => ProbeMode::InstantRead,
        2 => ProbeMode::Reserved,
        _ => ProbeMode::Error,
    };

    let color_bits = (mode_color_id_byte & 0b0001_1100) >> 2;
    let color = match color_bits {
        0 => Color::Yellow,
        1 => Color::Grey,
        _ => {
            return Err(DecodeError::InvalidColor(color_bits));
        },
    };

    // Three bits never exceed the bound of a three-bit integer, so the
    // checked constructor does not refuse them.
    proof {
        lemma_field_bits(mode_color_id_byte);
        lemma_three_bit_construct(mode_color_id_byte >> 5);
    }
    let id = match SizedInt::<ThreeBit>::new(mode_color_id_byte >> 5) {
        Ok(id) => id,
        Err(error) => {
            return Err(error);
        },
    };

    Ok(ProbeAdvertisement { color, id, mode, product_type, serial_number })
}

/// The three fields of the shared byte as numbers: the mode is the byte's
/// remainder by 4, the colour the next three bits, and the identifier what is
/// left above them. So the mode is at most 3, and the other two at most 7.
pub proof fn lemma_field_bits(byte: u8)
    ensures
        mode_bits(byte) == byte % 4,
        color_bits(byte) == (byte / 4) % 8,
        id_bits(byte) == byte / 32,
{
    assert(byte & 0b0000_0011 == byte % 4) by (bit_vector);
    assert((byte & 0b0001_1100) >> 2 == (byte / 4) % 8) by (bit_vector);
    assert(byte >> 5 == byte / 32) by (bit_vector);
}

/// A buffer of fewer than 19 bytes is refused as too short, whatever it
/// holds. The error gives the 19 bytes that are needed and the number found.
pub proof fn lemma_short_buffer_refused(packet: Seq<u8>)
    requires
        packet.len() < 19,
    ensures
        decoded(packet) == Err::<ProbeAdvertisementView, DecodeError>(
            DecodeError::BufferTooShort { required: 19, actual: packet.len() as usize },
        ),
{
}

/// Byte 0 decides the product type: 0 is unknown, 1 the predictive probe and
/// 2 the kitchen timer, and with any other value there the packet is refused
/// for its product type, the error holding the byte.
///
/// This is said of buffers of full length. Where byte 0 is one of the three,
/// the colour's bits must stand for a colour, or the packet is refused for
/// those.
pub proof fn lemma_product_type_decoding(packet: Seq<u8>)
    requires
        packet.len() >= 19,
        packet[0] <= 2 ==> color_bits(packet[18]) <= 1,
    ensures
        packet[0] == 0 ==> (decoded(packet) matches Ok(advertisement)
            && advertisement.product_type == ProductType::Unknown),
        packet[0] == 1 ==> (decoded(packet) matches Ok(advertisement)
            && advertisement.product_type == ProductType::PredictiveProbe),
        packet[0] == 2 ==> (decoded(packet) matches Ok(advertisement)
            && advertisement.product_type == ProductType::KitchenTimer),
        packet[0] >= 3 ==> decoded(packet) == Err::<ProbeAdvertisementView, DecodeError>(
            DecodeError::InvalidProductType(packet[0]),
        ),
{
}

/// The two lowest bits of byte 18 decide the mode: 0 is normal, 1 instant
/// read, 2 reserved and 3 error. They have no other value, so no packet is
/// refused for its mode.
///
/// This is said of buffers of full length whose product type and colour are
/// not refused.
pub proof fn lemma_mode_decoding(packet: Seq<u8>)
    requires
        packet.len() >= 19,
        packet[0] <= 2,
        color_bits(packet[18]) <= 1,
    ensures
        mode_bits(packet[18]) <= 3,
        decoded(packet) is Ok,
        mode_bits(packet[18]) == 0 ==> decoded(packet)->Ok_0.mode == ProbeMode::Normal,
        mode_bits(packet[18]) == 1 ==> decoded(packet)->Ok_0.mode == ProbeMode::InstantRead,
        mode_bits(packet[18]) == 2 ==> decoded(packet)->Ok_0.mode == ProbeMode::Reserved,
        mode_bits(packet[18]) == 3 ==> decoded(packet)->Ok_0.mode == ProbeMode::Error,
{
    lemma_field_bits(packet[18]);
}

/// Bits 2 to 4 of byte 18 decide the colour: 0 is yellow and 1 grey, and with
/// any of the values from 2 to 7 the packet is refused for its colour, the
/// error holding the three bits as a number.
///
/// This is said of buffers of full length whose product type is not refused.
pub proof fn lemma_color_decoding(packet: Seq<u8>)
    requires
        packet.len() >= 19,
        packet[0] <= 2,
    ensures
        color_bits(packet[18]) <= 7,
        color_bits(packet[18]) == 0 ==> (decoded(packet) matches Ok(advertisement)
            && advertisement.color == Color::Yellow),
        color_bits(packet[18]) == 1 ==> (decoded(packet) matches Ok(advertisement)
            && advertisement.color == Color::Grey),
        color_bits(packet[18]) >= 2 ==> decoded(packet) == Err::<
            ProbeAdvertisementView,
            DecodeError,
        >(DecodeError::InvalidColor(color_bits(packet[18]))),
{
    lemma_field_bits(packet[18]);
}

/// The three highest bits of byte 18 are the identifier, a number from 0 to
/// 7, and no packet is refused for it.
///
/// This is said of buffers of full length whose product type and colour are
/// not refused.
pub proof fn lemma_id_decoding(packet: Seq<u8>)
    requires
        packet.len() >= 19,
        packet[0] <= 2,
        color_bits(packet[18]) <= 1,
    ensures
        id_bits(packet[18]) <= 7,
        decoded(packet) matches Ok(advertisement) && advertisement.id == id_bits(packet[18]),
{
    lemma_field_bits(packet[18]);
}

/// The serial number is written as the two digits of byte 4, then those of
/// bytes 3, 2 and 1.
pub proof fn lemma_serial_number_text(packet: Seq<u8>)
    requires
        packet.len() >= 5,
    ensures
        serial_number_text(packet) == hex_pair(packet[4]) + hex_pair(packet[3]) + hex_pair(
            packet[2],
        ) + hex_pair(packet[1]),
{
    lemma_hex_reversed_of_four(packet.subrange(1, 5));
}

/// A buffer is refused in three cases and no others: it has fewer than 19
/// bytes, byte 0 is above 2, or bits 2 to 4 of byte 18 are above 1.
pub proof fn lemma_refused_exactly_when(packet: Seq<u8>)
    ensures
        decoded(packet) is Err <==> (packet.len() < 19 || packet[0] > 2 || color_bits(packet[18])
            > 1),
{
}

/// An error says what was read: the byte or the bits that stand for nothing,
/// as they are found at the offset that the error names, or the length of a
/// buffer that is too short. No packet is refused for a value out of range.
pub proof fn lemma_error_says_what_was_read(packet: Seq<u8>)
    ensures
        (decoded(packet) matches Err(DecodeError::BufferTooShort { required, actual }) ==> required
            == 19 && actual == packet.len() && packet.len() < 19),
        decoded(packet) matches Err(DecodeError::InvalidProductType(raw)) ==> raw == packet[0]
            && raw > 2 && decoded(packet)->Err_0.field_offset() == Some(0usize),
        decoded(packet) matches Err(DecodeError::InvalidColor(bits)) ==> bits == color_bits(
            packet[18],
        ) && 2 <= bits <= 7 && decoded(packet)->Err_0.field_offset() == Some(18usize),
        decoded(packet) is Err ==> decoded(packet)->Err_0 !is OutOfRange,
{
    lemma_field_bits(packet[18]);
}

/// Whatever decodes is well formed.
pub proof fn lemma_decoded_well_formed(packet: Seq<u8>)
    ensures
        decoded(packet) matches Ok(advertisement) ==> advertisement.wf(),
{
    if decoded(packet) is Ok {
        lemma_field_bits(packet[18]);
        lemma_hex_reversed_shape(packet.subrange(1, 5));
    }
}

/// Only the bytes at the offsets 0 to 4 and 18 bear on the result: two
/// buffers of full length that agree there decode alike.
pub proof fn lemma_other_bytes_ignored(first: Seq<u8>, second: Seq<u8>)
    requires
        first.len() >= 19,
        second.len() >= 19,
        forall|i: int| 0 <= i <= 4 || i == 18 ==> first[i] == second[i],
    ensures
        decoded(first) == decoded(second),
{
    assert(first.subrange(1, 5) == second.subrange(1, 5));
}

} // verus!
