use vstd::prelude::*;

verus! {

/// The subsystem that reported a native error (bits 16..28 of the code).
#[derive(Clone, Copy, Debug, PartialEq, Eq, Structural)]
pub enum NativeFacility {
    Codec,
    Aac,
    G729,
    Mp3,
    Avi,
    Jpeg,
    Asf,
    Atrac,
    Avc,
    Mpeg,
    Library,
    Face,
    Fmac,
    Gameupdate,
    Np,
    Mtp,
    Dnas,
    Openpsid,
    Cphio,
    Magicgate,
    P3da,
    Font,
    Snd,
    Wave,
    Http,
    Sas,
    Network,
    Periph,
    Mediasync,
    Audiorouting,
    Power,
    Irda,
    Sircs,
    Lfatfs,
    Lflash,
    Audio,
    Syscon,
    Usb,
    Flash,
    Memstick,
    Umd,
    Msapp,
    Sysfile,
    Utility,
    Vsh,
    Registry,
    Kernel,
    Errno,
    Null,
}

/// The numeric code of each facility.
pub open spec fn facility_code(f: NativeFacility) -> u16 {
    match f {
        NativeFacility::Codec => 0x7F,
        NativeFacility::Aac => 0x69,
        NativeFacility::G729 => 0x68,
        NativeFacility::Mp3 => 0x67,
        NativeFacility::Avi => 0x66,
        NativeFacility::Jpeg => 0x65,
        NativeFacility::Asf => 0x64,
        NativeFacility::Atrac => 0x63,
        NativeFacility::Avc => 0x62,
        NativeFacility::Mpeg => 0x61,
        NativeFacility::Library => 0x5F,
        NativeFacility::Face => 0x58,
        NativeFacility::Fmac => 0x57,
        NativeFacility::Gameupdate => 0x56,
        NativeFacility::Np => 0x55,
        NativeFacility::Mtp => 0x54,
        NativeFacility::Dnas => 0x53,
        NativeFacility::Openpsid => 0x52,
        NativeFacility::Cphio => 0x51,
        NativeFacility::Magicgate => 0x50,
        NativeFacility::P3da => 0x47,
        NativeFacility::Font => 0x46,
        NativeFacility::Snd => 0x45,
        NativeFacility::Wave => 0x44,
        NativeFacility::Http => 0x43,
        NativeFacility::Sas => 0x42,
        NativeFacility::Network => 0x41,
        NativeFacility::Periph => 0x3F,
        NativeFacility::Mediasync => 0x2D,
        NativeFacility::Audiorouting => 0x2C,
        NativeFacility::Power => 0x2B,
        NativeFacility::Irda => 0x2A,
        NativeFacility::Sircs => 0x29,
        NativeFacility::Lfatfs => 0x28,
        NativeFacility::Lflash => 0x27,
        NativeFacility::Audio => 0x26,
        NativeFacility::Syscon => 0x25,
        NativeFacility::Usb => 0x24,
        NativeFacility::Flash => 0x23,
        NativeFacility::Memstick => 0x22,
        NativeFacility::Umd => 0x21,
        NativeFacility::Msapp => 0x13,
        NativeFacility::Sysfile => 0x12,
        NativeFacility::Utility => 0x11,
        NativeFacility::Vsh => 0x10,
        NativeFacility::Registry => 0x08,
        NativeFacility::Kernel => 0x02,
        NativeFacility::Errno => 0x01,
        NativeFacility::Null => 0x00,
    }
}

/// The facility with the given code, if there is one.
pub open spec fn facility_from_code(code: u16) -> Option<NativeFacility> {
    if exists|f: NativeFacility| facility_code(f) == code {
        Some(choose|f: NativeFacility| facility_code(f) == code)
    } else {
        None
    }
}

impl NativeFacility {
    /// The facility's numeric code.
    pub fn code(self) -> (c: u16)
        ensures
            c == facility_code(self),
    {
        match self {
            NativeFacility::Codec => 0x7F,
            NativeFacility::Aac => 0x69,
            NativeFacility::G729 => 0x68,
            NativeFacility::Mp3 => 0x67,
            NativeFacility::Avi => 0x66,
            NativeFacility::Jpeg => 0x65,
            NativeFacility::Asf => 0x64,
            NativeFacility::Atrac => 0x63,
            NativeFacility::Avc => 0x62,
            NativeFacility::Mpeg => 0x61,
            NativeFacility::Library => 0x5F,
            NativeFacility::Face => 0x58,
            NativeFacility::Fmac => 0x57,
            NativeFacility::Gameupdate => 0x56,
            NativeFacility::Np => 0x55,
            NativeFacility::Mtp => 0x54,
            NativeFacility::Dnas => 0x53,
            NativeFacility::Openpsid => 0x52,
            NativeFacility::Cphio => 0x51,
            NativeFacility::Magicgate => 0x50,
            NativeFacility::P3da => 0x47,
            NativeFacility::Font => 0x46,
            NativeFacility::Snd => 0x45,
            NativeFacility::Wave => 0x44,
            NativeFacility::Http => 0x43,
            NativeFacility::Sas => 0x42,
            NativeFacility::Network => 0x41,
            NativeFacility::Periph => 0x3F,
            NativeFacility::Mediasync => 0x2D,
            NativeFacility::Audiorouting => 0x2C,
            NativeFacility::Power => 0x2B,
            NativeFacility::Irda => 0x2A,
            NativeFacility::Sircs => 0x29,
            NativeFacility::Lfatfs => 0x28,
            NativeFacility::Lflash => 0x27,
            NativeFacility::Audio => 0x26,
            NativeFacility::Syscon => 0x25,
            NativeFacility::Usb => 0x24,
            NativeFacility::Flash => 0x23,
            NativeFacility::Memstick => 0x22,
            NativeFacility::Umd => 0x21,
            NativeFacility::Msapp => 0x13,
            NativeFacility::Sysfile => 0x12,
            NativeFacility::Utility => 0x11,
            NativeFacility::Vsh => 0x10,
            NativeFacility::Registry => 0x08,
            NativeFacility::Kernel => 0x02,
            NativeFacility::Errno => 0x01,
            NativeFacility::Null => 0x00,
        }
    }

    /// The facility with the given code; `Err(())` for a code that names none.
    pub fn try_from_code(code: u16) -> (r: Result<NativeFacility, ()>)
        ensures
            match r {
                Ok(f) => facility_code(f) == code,
                Err(()) => forall|f: NativeFacility| facility_code(f) != code,
            },
            r is Ok <==> facility_from_code(code) is Some,
            r matches Ok(f) ==> facility_from_code(code) == Some(f),
    {
        proof {
            lemma_facility_code_injective();
        }
        let r = match code {
            0x7F => Ok(NativeFacility::Codec),
            0x69 => Ok(NativeFacility::Aac),
            0x68 => Ok(NativeFacility::G729),
            0x67 => Ok(NativeFacility::Mp3),
            0x66 => Ok(NativeFacility::Avi),
            0x65 => Ok(NativeFacility::Jpeg),
            0x64 => Ok(NativeFacility::Asf),
            0x63 => Ok(NativeFacility::Atrac),
            0x62 => Ok(NativeFacility::Avc),
            0x61 => Ok(NativeFacility::Mpeg),
            0x5F => Ok(NativeFacility::Library),
            0x58 => Ok(NativeFacility::Face),
            0x57 => Ok(NativeFacility::Fmac),
            0x56 => Ok(NativeFacility::Gameupdate),
            0x55 => Ok(NativeFacility::Np),
            0x54 => Ok(NativeFacility::Mtp),
            0x53 => Ok(NativeFacility::Dnas),
            0x52 => Ok(NativeFacility::Openpsid),
            0x51 => Ok(NativeFacility::Cphio),
            0x50 => Ok(NativeFacility::Magicgate),
            0x47 => Ok(NativeFacility::P3da),
            0x46 => Ok(NativeFacility::Font),
            0x45 => Ok(NativeFacility::Snd),
            0x44 => Ok(NativeFacility::Wave),
            0x43 => Ok(NativeFacility::Http),
            0x42 => Ok(NativeFacility::Sas),
            0x41 => Ok(NativeFacility::Network),
            0x3F => Ok(NativeFacility::Periph),
            0x2D => Ok(NativeFacility::Mediasync),
            0x2C => Ok(NativeFacility::Audiorouting),
            0x2B => Ok(NativeFacility::Power),
            0x2A => Ok(NativeFacility::Irda),
            0x29 => Ok(NativeFacility::Sircs),
            0x28 => Ok(NativeFacility::Lfatfs),
            0x27 => Ok(NativeFacility::Lflash),
            0x26 => Ok(NativeFacility::Audio),
            0x25 => Ok(NativeFacility::Syscon),
            0x24 => Ok(NativeFacility::Usb),
            0x23 => Ok(NativeFacility::Flash),
            0x22 => Ok(NativeFacility::Memstick),
            0x21 => Ok(NativeFacility::Umd),
            0x13 => Ok(NativeFacility::Msapp),
            0x12 => Ok(NativeFacility::Sysfile),
            0x11 => Ok(NativeFacility::Utility),
            0x10 => Ok(NativeFacility::Vsh),
            0x08 => Ok(NativeFacility::Registry),
            0x02 => Ok(NativeFacility::Kernel),
            0x01 => Ok(NativeFacility::Errno),
            0x00 => Ok(NativeFacility::Null),
            _ => Err(()),
        };
        proof {
            if let Ok(f) = r {
                assert(facility_code(f) == code);
            }
        }
        r
    }
}

/// Distinct facilities have distinct codes.
pub proof fn lemma_facility_code_injective()
    ensures
        forall|f: NativeFacility, g: NativeFacility|
            #[trigger] facility_code(f) == #[trigger] facility_code(g) ==> f == g,
{
}

/// Reading a facility back from its code gives the facility.
pub proof fn lemma_facility_code_roundtrip(f: NativeFacility)
    ensures
        facility_from_code(facility_code(f)) == Some(f),
{
    lemma_facility_code_injective();
}


/// Bits 16..28 of a native error code, read as an unsigned 32-bit word.
pub open spec fn facility_bits(code: i32) -> int {
    ((code as int + 0x1_0000_0000) / 0x10000) % 0x1000
}

/// Bit 30 of a negative native error code is set exactly when the code is at
/// least `-0x4000_0000`.
pub open spec fn critical_bit(code: i32) -> bool {
    code >= -0x4000_0000
}

/// A failure reported by the operating system: a negative 32-bit code.
#[derive(Debug)]
pub struct NativeError(i32);

impl Clone for NativeError {
    fn clone(&self) -> (r: Self)
        ensures
            r == *self,
    {
        proof {
            use_type_invariant(self);
        }
        NativeError(self.0)
    }
}

proof fn lemma_error_bits(x: i32)
    by (bit_vector)
    requires
        x < 0,
    ensures
        (((x >> 30u32) & 1) == 1) <==> x >= -0x4000_0000i32,
{
}

proof fn lemma_facility_bits(x: i32)
    requires
        x < 0,
    ensures
        ((x as u32) >> 16u32) & 0xfff == facility_bits(x),
{
    let u = x as u32;
    assert((x as i64) + 0x1_0000_0000i64 == (u as i64)) by (bit_vector)
        requires
            x < 0i32,
            u == x as u32,
    ;
    assert((u >> 16u32) & 0xfff == (u / 0x10000) % 0x1000) by (bit_vector);
}

impl NativeError {
    #[verifier::type_invariant]
    spec fn negative(&self) -> bool {
        self.0 < 0
    }

    /// The raw (negative) code of the error.
    pub closed spec fn code(&self) -> i32 {
        self.0
    }

    /// The error with the given code; `Err(())` for a code that is not negative.
    pub fn try_from_code(from: i32) -> (r: Result<NativeError, ()>)
        ensures
            r is Ok <==> from < 0,
            r matches Ok(e) ==> e.code() == from,
    {
        if from < 0 {
            Ok(NativeError(from))
        } else {
            Err(())
        }
    }

    /// The raw code.
    pub fn inner(&self) -> (c: i32)
        ensures
            c == self.code(),
            c < 0,
    {
        proof {
            use_type_invariant(self);
        }
        self.0
    }

    /// Whether the error is critical (bit 30 of the code).
    pub fn is_critical(&self) -> (b: bool)
        ensures
            b == critical_bit(self.code()),
    {
        proof {
            use_type_invariant(self);
        }
        let x = self.0;
        proof {
            lemma_error_bits(x);
        }
        ((x >> 30u32) & 1) == 1
    }

    /// The facility that reported the error.
    pub fn facility(&self) -> (f: NativeFacility)
        requires
            facility_from_code(facility_bits(self.code()) as u16) is Some,
        ensures
            facility_code(f) == facility_bits(self.code()),
            f == facility_from_code(facility_bits(self.code()) as u16).unwrap(),
    {
        proof {
            use_type_invariant(self);
        }
        let x = self.0;
        proof {
            lemma_facility_bits(x);
        }
        let facility = (((x as u32) >> 16u32) & 0xfff) as u16;
        match NativeFacility::try_from_code(facility) {
            Ok(f) => f,
            Err(()) => {
                proof {
                    lemma_facility_code_injective();
                }
                assert(false);
                NativeFacility::Null
            },
        }
    }
}

/// A result whose error is a native error.
pub type NativeResult<T> = Result<T, NativeError>;

/// `r` is the error that the negative kernel reply `reply` stands for.
pub open spec fn reply_error<T>(r: Result<T, NativeError>, reply: i32) -> bool {
    r matches Err(e) && e.code() == reply
}

/// Reads a native return value: a negative value is an error, anything else
/// is a result.
pub fn native_result(result: i32) -> (r: Result<u32, NativeError>)
    ensures
        result >= 0 ==> r == Ok::<u32, NativeError>(result as u32),
        result < 0 ==> (r matches Err(e) && e.code() == result),
{
    match NativeError::try_from_code(result) {
        Err(()) => Ok(result as u32),
        Ok(err) => Err(err),
    }
}

/// Reads a native status code: a negative value is an error, anything else
/// is success.
pub fn native_error(result: i32) -> (r: Result<(), NativeError>)
    ensures
        result >= 0 ==> r is Ok,
        result < 0 ==> (r matches Err(e) && e.code() == result),
{
    match NativeError::try_from_code(result) {
        Err(()) => Ok(()),
        Ok(err) => Err(err),
    }
}

} // verus!
