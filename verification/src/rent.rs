use vstd::prelude::*;
use vstd::bytes::*;
use crate::error::ProgramError;

verus! {

/// Bytes of account storage charged for besides the account's data.
pub const ACCOUNT_STORAGE_OVERHEAD: u64 = 128;

/// Largest account data length (10 MiB) for which a balance is computed.
pub const MAX_PERMITTED_DATA_LENGTH: u64 = 10485760;

/// Largest rental rate for which the minimum balance of the largest account
/// still fits in a `u64`.
pub const MAX_LAMPORTS_PER_BYTE: u64 = 1759197129867;

/// The address of the rent sysvar account.
pub const RENT_ID: crate::account::Address = [
    6, 167, 213, 23, 25, 44, 92, 81, 33, 140, 201, 76, 61, 74, 241, 127,
    88, 218, 238, 8, 155, 161, 253, 68, 227, 219, 217, 138, 0, 0, 0, 0,
];

/// The rent sysvar: the rental rate in lamports per byte.
#[derive(PartialEq, Eq, Structural, Debug, Clone, Copy)]
pub struct Rent {
    pub lamports_per_byte: u64,
}

/// The balance that makes an account of `data_len` bytes rent exempt.
pub open spec fn minimum_balance(lamports_per_byte: u64, data_len: int) -> int {
    (ACCOUNT_STORAGE_OVERHEAD + data_len) * lamports_per_byte
}

/// Whether [`Rent::try_minimum_balance`] computes a balance for these values
/// rather than reporting `InvalidArgument`.
pub open spec fn minimum_balance_defined(lamports_per_byte: u64, data_len: int) -> bool {
    data_len <= MAX_PERMITTED_DATA_LENGTH && lamports_per_byte <= MAX_LAMPORTS_PER_BYTE
}

/// A balance that is computed fits in a `u64`.
pub proof fn lemma_minimum_balance_fits(lamports_per_byte: u64, data_len: int)
    requires
        0 <= data_len,
        minimum_balance_defined(lamports_per_byte, data_len),
    ensures
        0 <= minimum_balance(lamports_per_byte, data_len) <= u64::MAX,
{
    assert(0 <= (ACCOUNT_STORAGE_OVERHEAD + data_len) * lamports_per_byte <= u64::MAX) by (nonlinear_arith)
        requires
            0 <= data_len <= MAX_PERMITTED_DATA_LENGTH,
            lamports_per_byte <= MAX_LAMPORTS_PER_BYTE,
    ;
}

impl Rent {
    /// Reads the rent sysvar from its account data: the rate is the first
    /// eight bytes, little endian.
    pub fn from_bytes(bytes: &[u8]) -> (r: Result<Rent, ProgramError>)
        ensures
            bytes@.len() < 8 ==> r == Err::<Rent, ProgramError>(ProgramError::InvalidArgument),
            bytes@.len() >= 8 ==> r == Ok::<Rent, ProgramError>(
                Rent { lamports_per_byte: spec_u64_from_le_bytes(bytes@.subrange(0, 8)) },
            ),
    {
        if bytes.len() < 8 {
            return Err(ProgramError::InvalidArgument);
        }
        let rate = u64_from_le_bytes(&bytes[0..8]);
        Ok(Rent { lamports_per_byte: rate })
    }

    /// The minimum balance for rent exemption of an account holding
    /// `data_len` bytes, or `InvalidArgument` when the length exceeds the
    /// permitted maximum or the rate is too large for the result to fit.
    pub fn try_minimum_balance(&self, data_len: usize) -> (r: Result<u64, ProgramError>)
        ensures
            minimum_balance_defined(self.lamports_per_byte, data_len as int) ==> r == Ok::<u64, ProgramError>(
                minimum_balance(self.lamports_per_byte, data_len as int) as u64,
            ) && minimum_balance(self.lamports_per_byte, data_len as int) <= u64::MAX,
            !minimum_balance_defined(self.lamports_per_byte, data_len as int) ==> r == Err::<u64, ProgramError>(
                ProgramError::InvalidArgument,
            ),
    {
        if data_len as u64 > MAX_PERMITTED_DATA_LENGTH {
            return Err(ProgramError::InvalidArgument);
        }
        if self.lamports_per_byte > MAX_LAMPORTS_PER_BYTE {
            return Err(ProgramError::InvalidArgument);
        }
        let len = data_len as u64;
        proof {
            lemma_minimum_balance_fits(self.lamports_per_byte, len as int);
        }
        Ok((ACCOUNT_STORAGE_OVERHEAD + len) * self.lamports_per_byte)
    }
}

/// Length of the rent sysvar account data: the rate per byte-year (`u64`),
/// the exemption threshold (`f64`) and the burn percentage (`u8`).
pub const RENT_SYSVAR_LEN: usize = 17;

/// Bit pattern of the exemption threshold `2.0` (the cluster default).
pub const EXEMPTION_THRESHOLD_TWO_BITS: u64 = 4611686018427387904;

/// Bit pattern of the exemption threshold `1.0` (the rate is then already
/// per byte).
pub const EXEMPTION_THRESHOLD_ONE_BITS: u64 = 4607182418800017408;

/// The rent sysvar as its account holds it: a rate per byte-year and an
/// exemption threshold (kept as the bits of the `f64`).
#[derive(PartialEq, Eq, Structural, Debug, Clone, Copy)]
pub struct LegacyRent {
    pub lamports_per_byte_year: u64,
    pub exemption_threshold_bits: u64,
    pub burn_percent: u8,
}

/// The yearly rent of `data_len` bytes: storage overhead plus data, times
/// the rate per byte-year.
pub open spec fn yearly_rent(rent: LegacyRent, data_len: int) -> int {
    (ACCOUNT_STORAGE_OVERHEAD + data_len) * rent.lamports_per_byte_year
}

/// The rent-exempt minimum of an account, or what is still to be done to
/// get it.
#[derive(PartialEq, Eq, Structural, Debug, Clone, Copy)]
pub enum MinimumBalance {
    /// The minimum, in lamports.
    Lamports(u64),
    /// The minimum is `yearly_rent` times the exemption threshold whose
    /// `f64` bits are `threshold_bits`, converted back to a `u64`: a
    /// floating-point product, computed by the caller.
    ScaledByThreshold { yearly_rent: u64, threshold_bits: u64 },
}

/// What [`LegacyRent::minimum_balance`] gives: with the threshold one the
/// yearly rent, with the threshold two twice the yearly rent, with any other
/// threshold the yearly rent to scale; `ArithmeticOverflow` when a value
/// computed in integers does not fit in a `u64`.
pub open spec fn spec_legacy_minimum_balance(rent: LegacyRent, data_len: int) -> Result<MinimumBalance, ProgramError> {
    if ACCOUNT_STORAGE_OVERHEAD + data_len > u64::MAX || yearly_rent(rent, data_len) > u64::MAX {
        Err(ProgramError::ArithmeticOverflow)
    } else if rent.exemption_threshold_bits == EXEMPTION_THRESHOLD_ONE_BITS {
        Ok(MinimumBalance::Lamports(yearly_rent(rent, data_len) as u64))
    } else if rent.exemption_threshold_bits == EXEMPTION_THRESHOLD_TWO_BITS {
        if yearly_rent(rent, data_len) * 2 > u64::MAX {
            Err(ProgramError::ArithmeticOverflow)
        } else {
            Ok(MinimumBalance::Lamports((yearly_rent(rent, data_len) * 2) as u64))
        }
    } else {
        Ok(MinimumBalance::ScaledByThreshold {
            yearly_rent: yearly_rent(rent, data_len) as u64,
            threshold_bits: rent.exemption_threshold_bits,
        })
    }
}

/// A natural number is at most its double.
proof fn lemma_doubling_bound(x: int)
    requires
        0 <= x,
    ensures
        x <= x * 2,
{
}

impl LegacyRent {
    /// What reading the rent sysvar from account data gives.
    pub open spec fn spec_from_bytes(bytes: Seq<u8>) -> Result<LegacyRent, ProgramError> {
        if bytes.len() < RENT_SYSVAR_LEN {
            Err(ProgramError::InvalidArgument)
        } else {
            Ok(LegacyRent {
                lamports_per_byte_year: spec_u64_from_le_bytes(bytes.subrange(0, 8)),
                exemption_threshold_bits: spec_u64_from_le_bytes(bytes.subrange(8, 16)),
                burn_percent: bytes[16],
            })
        }
    }

    /// Reads the rent sysvar from its account data (at least
    /// [`RENT_SYSVAR_LEN`] bytes, little endian).
    pub fn from_bytes(bytes: &[u8]) -> (r: Result<LegacyRent, ProgramError>)
        ensures
            r == LegacyRent::spec_from_bytes(bytes@),
    {
        if bytes.len() < RENT_SYSVAR_LEN {
            return Err(ProgramError::InvalidArgument);
        }
        let rate = u64_from_le_bytes(&bytes[0..8]);
        let threshold = u64_from_le_bytes(&bytes[8..16]);
        Ok(LegacyRent { lamports_per_byte_year: rate, exemption_threshold_bits: threshold, burn_percent: bytes[16] })
    }

    /// The minimum balance for rent exemption of an account holding
    /// `data_len` bytes, in integers for the thresholds one and two (the
    /// values clusters use); for any other threshold the yearly rent to be
    /// scaled by it in floating point.
    pub fn minimum_balance(&self, data_len: usize) -> (r: Result<MinimumBalance, ProgramError>)
        ensures
            r == spec_legacy_minimum_balance(*self, data_len as int),
            self.exemption_threshold_bits == EXEMPTION_THRESHOLD_ONE_BITS && 128 + data_len <= u64::MAX
                && (128 + data_len) * self.lamports_per_byte_year <= u64::MAX
                ==> r == Ok::<MinimumBalance, ProgramError>(
                    MinimumBalance::Lamports(((128 + data_len) * self.lamports_per_byte_year) as u64),
                ),
            self.exemption_threshold_bits == EXEMPTION_THRESHOLD_TWO_BITS && 128 + data_len <= u64::MAX
                && (128 + data_len) * self.lamports_per_byte_year * 2 <= u64::MAX
                ==> r == Ok::<MinimumBalance, ProgramError>(
                    MinimumBalance::Lamports(((128 + data_len) * self.lamports_per_byte_year * 2) as u64),
                ),
    {
        proof {
            lemma_doubling_bound((128 + data_len) * self.lamports_per_byte_year);
        }
        let bytes = match ACCOUNT_STORAGE_OVERHEAD.checked_add(data_len as u64) {
            Some(b) => b,
            None => {
                return Err(ProgramError::ArithmeticOverflow);
            },
        };
        let base = match bytes.checked_mul(self.lamports_per_byte_year) {
            Some(b) => b,
            None => {
                return Err(ProgramError::ArithmeticOverflow);
            },
        };
        if self.exemption_threshold_bits == EXEMPTION_THRESHOLD_ONE_BITS {
            Ok(MinimumBalance::Lamports(base))
        } else if self.exemption_threshold_bits == EXEMPTION_THRESHOLD_TWO_BITS {
            match base.checked_mul(2) {
                Some(b) => Ok(MinimumBalance::Lamports(b)),
                None => Err(ProgramError::ArithmeticOverflow),
            }
        } else {
            Ok(MinimumBalance::ScaledByThreshold { yearly_rent: base, threshold_bits: self.exemption_threshold_bits })
        }
    }
}

} // verus!
