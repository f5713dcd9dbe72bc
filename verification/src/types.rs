use crate::error::DecodeError;
use crate::hex::is_hex_digit;
use std::marker::PhantomData;
use vstd::prelude::*;

verus! {

/// The largest value that a [`SizedInt`] of some width may hold.
pub trait MaxValue {
    const MAX: u8;
}

/// An unsigned integer that is known to lie between 0 and `T::MAX`.
///
/// The only way to make one is [`SizedInt::new`], which checks the bound, and
/// nothing changes the value afterwards.
#[derive(Debug)]
pub struct SizedInt<T: MaxValue>(u8, PhantomData<T>);

impl<T: MaxValue> View for SizedInt<T> {
    type V = nat;

    closed spec fn view(&self) -> nat {
        self.0 as nat
    }
}

impl<T: MaxValue> SizedInt<T> {
    #[verifier::type_invariant]
    spec fn within_bound(self) -> bool {
        self.0 <= T::MAX
    }

    /// What [`SizedInt::new`] makes of `value`: the number held on success,
    /// or the error that names the value and the bound.
    pub open spec fn construct(value: u8) -> Result<nat, DecodeError> {
        if value <= T::MAX {
            Ok(value as nat)
        } else {
            Err(DecodeError::OutOfRange { value, max: T::MAX })
        }
    }

    /// Accepts `value` if it is at most `T::MAX`, and refuses it otherwise.
    pub fn new(value: u8) -> (made: Result<Self, DecodeError>)
        ensures
            made matches Ok(sized) ==> Self::construct(value) == Ok::<nat, DecodeError>(sized@),
            made matches Err(error) ==> Self::construct(value) == Err::<nat, DecodeError>(error),
    {
        if value <= T::MAX {
            Ok(SizedInt(value, PhantomData))
        } else {
            Err(DecodeError::OutOfRange { value, max: T::MAX })
        }
    }

    /// The number held.
    pub fn value(&self) -> (value: u8)
        ensures
            value == self@,
            value <= T::MAX,
    {
        proof {
            use_type_invariant(self);
        }
        self.0
    }
}

impl<T: MaxValue> PartialEq for SizedInt<T> {
    /// Two sized integers of one bound are equal when they hold the same
    /// number.
    fn eq(&self, other: &Self) -> (equal: bool) {
        self.0 == other.0
    }
}

impl<T: MaxValue> vstd::std_specs::cmp::PartialEqSpecImpl for SizedInt<T> {
    open spec fn obeys_eq_spec() -> bool {
        true
    }

    open spec fn eq_spec(&self, other: &Self) -> bool {
        self@ == other@
    }
}

/// The bound of fields that are three bits wide.
#[derive(Debug, PartialEq)]
pub struct ThreeBit;

impl MaxValue for ThreeBit {
    const MAX: u8 = 7;
}

/// The bound of three bits is 7: every number from 0 to 7 makes a three-bit
/// integer that holds that very number, and every number above 7 is refused
/// as out of range, with the number and the bound in the error.
pub proof fn lemma_three_bit_construct(value: u8)
    ensures
        ThreeBit::MAX == 7,
        value <= 7 ==> SizedInt::<ThreeBit>::construct(value) == Ok::<nat, DecodeError>(
            value as nat,
        ),
        value > 7 ==> SizedInt::<ThreeBit>::construct(value) == Err::<nat, DecodeError>(
            DecodeError::OutOfRange { value, max: 7 },
        ),
{
}

/// The kind of device that sent an advertisement.
#[derive(Debug, Clone, Copy, PartialEq, Eq, Structural)]
pub enum ProductType {
    Unknown,
    PredictiveProbe,
    /// Also sent by the repeater.
    KitchenTimer,
}

impl ProductType {
    /// The product type that the byte `raw` stands for, if it stands for one.
    pub open spec fn from_raw(raw: u8) -> Option<ProductType> {
        if raw == 0 {
            Some(ProductType::Unknown)
        } else if raw == 1 {
            Some(ProductType::PredictiveProbe)
        } else if raw == 2 {
            Some(ProductType::KitchenTimer)
        } else {
            None
        }
    }
}

/// The operating mode of a probe.
#[derive(Debug, Clone, Copy, PartialEq, Eq, Structural)]
pub enum ProbeMode {
    Normal,
    InstantRead,
    Reserved,
    Error,
}

impl ProbeMode {
    /// The mode that the two bits `bits` stand for. Every number of two bits
    /// stands for one.
    pub open spec fn from_bits(bits: u8) -> ProbeMode
        recommends
            bits <= 3,
    {
        if bits == 0 {
            ProbeMode::Normal
        } else if bits == 1 {
            ProbeMode::InstantRead
        } else if bits == 2 {
            ProbeMode::Reserved
        } else {
            ProbeMode::Error
        }
    }
}

/// The colour of a probe.
#[derive(Debug, Clone, Copy, PartialEq, Eq, Structural)]
pub enum Color {
    Yellow,
    Grey,
}

impl Color {
    /// The colour that the three bits `bits` stand for, if they stand for
    /// one. The numbers from 2 to 7 are not assigned yet.
    pub open spec fn from_bits(bits: u8) -> Option<Color> {
        if bits == 0 {
            Some(Color::Yellow)
        } else if bits == 1 {
            Some(Color::Grey)
        } else {
            None
        }
    }
}

/// One advertisement of a probe, as decoded from a packet.
#[derive(Debug)]
pub struct ProbeAdvertisement {
    pub color: Color,
    pub id: SizedInt<ThreeBit>,
    pub mode: ProbeMode,
    pub product_type: ProductType,
    /// Eight upper-case hexadecimal digits.
    pub serial_number: String,
}

/// What a [`ProbeAdvertisement`] says, in mathematical values.
#[verifier::ext_equal]
pub struct ProbeAdvertisementView {
    pub color: Color,
    pub id: nat,
    pub mode: ProbeMode,
    pub product_type: ProductType,
    pub serial_number: Seq<char>,
}

impl ProbeAdvertisementView {
    /// What holds of every advertisement that was decoded: the identifier
    /// fits in three bits, and the serial number is eight upper-case
    /// hexadecimal digits.
    pub open spec fn wf(self) -> bool {
        &&& self.id <= 7
        &&& self.serial_number.len() == 8
        &&& forall|i: int| 0 <= i < 8 ==> is_hex_digit(#[trigger] self.serial_number[i])
    }
}

impl View for ProbeAdvertisement {
    type V = ProbeAdvertisementView;

    open spec fn view(&self) -> ProbeAdvertisementView {
        ProbeAdvertisementView {
            color: self.color,
            id: self.id@,
            mode: self.mode,
            product_type: self.product_type,
            serial_number: self.serial_number@,
        }
    }
}

} // verus!
