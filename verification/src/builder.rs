//! The QR code builder: the data to encode and the settings forced on the
//! encoder.

use vstd::prelude::*;

use crate::encoder::{
    encode_outcome, encoder_build, encoder_new, level_or_default, level_rank, encoder_set_ecl, encoder_set_mask,
    encoder_set_mode, encoder_set_version, is_alphanumeric_byte, is_digit_byte, mode_admits,
    EncodeRequest,
};
use crate::error::{EncodeError, Error};
use crate::options::{Mask, Mode, ECL};
use crate::symbol::{side_of_version, QRCode};
use crate::version::Version;

verus! {

/// Builder for QR code generation: the data, and the error correction level,
/// mode, version and mask forced on the encoder (`None` leaves the choice to
/// it: level `Q`, the best mode, the smallest version that fits, the best
/// mask).
pub struct QRBuilder {
    data: Vec<u8>,
    ecl: Option<ECL>,
    mode: Option<Mode>,
    version: Option<Version>,
    mask: Option<Mask>,
}

/// The request `request` with the level forced to `ecl`.
pub open spec fn at_level(request: EncodeRequest, ecl: ECL) -> EncodeRequest {
    EncodeRequest { ecl: Some(ecl), ..request }
}

/// The version number of an optional version.
pub open spec fn version_value(v: Option<Version>) -> Option<u8> {
    match v {
        Some(ver) => Some(ver.value()),
        None => None,
    }
}

impl View for QRBuilder {
    type V = EncodeRequest;

    closed spec fn view(&self) -> EncodeRequest {
        EncodeRequest {
            data: self.data@,
            ecl: self.ecl,
            mode: self.mode,
            version: version_value(self.version),
            mask: self.mask,
        }
    }
}

impl QRBuilder {
    /// A builder for `data`, with no setting forced.
    pub fn new(data: Vec<u8>) -> (b: QRBuilder)
        ensures
            b@ == (EncodeRequest { data: data@, ecl: None, mode: None, version: None, mask: None }),
    {
        QRBuilder { data, ecl: None, mode: None, version: None, mask: None }
    }

    /// Forces the error correction level.
    pub fn ecl(&mut self, ecl: ECL)
        ensures
            final(self)@ == (EncodeRequest { ecl: Some(ecl), ..old(self)@ }),
    {
        self.ecl = Some(ecl);
    }

    /// Forces the encoding mode.
    pub fn mode(&mut self, mode: Mode)
        ensures
            final(self)@ == (EncodeRequest { mode: Some(mode), ..old(self)@ }),
    {
        self.mode = Some(mode);
    }

    /// Forces the version.
    pub fn version(&mut self, version: Version)
        ensures
            final(self)@ == (EncodeRequest { version: Some(version.value()), ..old(self)@ }),
    {
        self.version = Some(version);
    }

    /// Forces the mask pattern.
    pub fn mask(&mut self, mask: Mask)
        ensures
            final(self)@ == (EncodeRequest { mask: Some(mask), ..old(self)@ }),
    {
        self.mask = Some(mask);
    }

    /// Whether the forced mode, if any, can encode the data (see
    /// [`mode_admits`]); building requires it.
    pub fn mode_admits_data(&self) -> (admitted: bool)
        ensures
            admitted == mode_admits(self@.mode, self@.data),
            self@.mode is None || self@.mode == Some(Mode::Byte) ==> admitted,
            self@.mode == Some(Mode::Numeric) ==> (admitted <==> forall|i: int|
                0 <= i < self@.data.len() ==> '0' <= (#[trigger] self@.data[i]) as char && self@.data[i] as char <= '9'),
    {
        proof {
            crate::encoder::law_numeric_mode_takes_exactly_digits(self@.data);
            crate::encoder::law_byte_mode_takes_any_data(self@.data);
        }
        match self.mode {
            Some(Mode::Numeric) => {
                let mut i: usize = 0;
                while i < self.data.len()
                    invariant
                        self.mode == Some(Mode::Numeric),
                        i <= self.data.len(),
                        forall|j: int| 0 <= j < i ==> is_digit_byte(#[trigger] self.data@[j]),
                    decreases self.data.len() - i,
                {
                    let byte = self.data[i];
                    if !(48 <= byte && byte <= 57) {
                        assert(!is_digit_byte(self.data@[i as int]));
                        proof {
                            crate::encoder::law_numeric_mode_takes_exactly_digits(self@.data);
                        }
                        return false;
                    }
                    i = i + 1;
                }
                true
            },
            Some(Mode::Alphanumeric) => {
                let mut i: usize = 0;
                while i < self.data.len()
                    invariant
                        self.mode == Some(Mode::Alphanumeric),
                        i <= self.data.len(),
                        forall|j: int| 0 <= j < i ==> is_alphanumeric_byte(#[trigger] self.data@[j]),
                    decreases self.data.len() - i,
                {
                    let c = self.data[i];
                    let ok = (48 <= c && c <= 57) || (65 <= c && c <= 90) || c == 32 || c == 36
                        || c == 37 || c == 42 || c == 43 || c == 45 || c == 46 || c == 47 || c == 58;
                    if !ok {
                        assert(!is_alphanumeric_byte(self.data@[i as int]));
                        return false;
                    }
                    i = i + 1;
                }
                true
            },
            _ => true,
        }
    }

    /// Generates the symbol. Fails with `DataTooLarge` when no version can
    /// hold the data at the chosen level and mode, and with `VersionTooSmall`
    /// when the forced version is smaller than the one the data needs. A
    /// forced numeric or alphanumeric mode must be able to encode the data.
    pub fn build(&self) -> (r: Result<QRCode, Error>)
        requires
            mode_admits(self@.mode, self@.data),
        ensures
            match r {
                Ok(qr) => encode_outcome(self@) == Ok::<(nat, Seq<bool>), EncodeError>((qr.side(), qr.modules())),
                Err(Error::Encoding(e)) => encode_outcome(self@) == Err::<(nat, Seq<bool>), EncodeError>(e),
                Err(_) => false,
            },
            // A lower level holds at least as much data: the same request at
            // any lower level also builds, with a side no larger.
            r matches Ok(qr) ==> forall|lower: ECL|
                level_rank(lower) <= level_rank(level_or_default(self@.ecl))
                    ==> ((#[trigger] encode_outcome(at_level(self@, lower)))
                    matches Ok((side, _)) && side <= qr.side()),
            // Data too large at one level is too large at every higher one.
            r matches Err(Error::Encoding(EncodeError::DataTooLarge)) ==> forall|higher: ECL|
                level_rank(higher) >= level_rank(level_or_default(self@.ecl))
                    ==> #[trigger] encode_outcome(at_level(self@, higher))
                    == Err::<(nat, Seq<bool>), EncodeError>(EncodeError::DataTooLarge),
    {
        let mut enc = encoder_new(&self.data);
        if let Some(ecl) = self.ecl {
            encoder_set_ecl(&mut enc, ecl);
        }
        if let Some(mode) = self.mode {
            encoder_set_mode(&mut enc, mode);
        }
        if let Some(version) = &self.version {
            encoder_set_version(&mut enc, version.number());
        }
        if let Some(mask) = self.mask {
            encoder_set_mask(&mut enc, mask);
        }
        assert(enc@ == self@);
        match encoder_build(&enc) {
            Ok(code) => Ok(QRCode::from_code(code)),
            Err(e) => Err(Error::Encoding(e)),
        }
    }
}

/// The request `request` with the version forced to `version` (or left free).
pub open spec fn with_version(request: EncodeRequest, version: Option<u8>) -> EncodeRequest {
    EncodeRequest { version, ..request }
}

/// Leaving the error correction level unforced builds exactly what forcing
/// level `Q` builds: `Q` is the default level.
pub proof fn law_default_level_is_q(request: EncodeRequest)
    ensures
        encode_outcome(EncodeRequest { ecl: None, ..request }) == encode_outcome(
            EncodeRequest { ecl: Some(ECL::Q), ..request },
        ),
{
}

/// When no version is forced the encoder uses the smallest version that
/// holds the data: with the free choice giving a symbol of side `side`, a
/// forced version `v` succeeds exactly when its side `4 * v + 17` is at least
/// `side`, and then gives a symbol of that side; forcing the very version the
/// encoder picks builds the same symbol.
pub proof fn law_free_version_is_smallest(request: EncodeRequest, side: nat, modules: Seq<bool>, v: u8)
    requires
        encode_outcome(with_version(request, None)) == Ok::<(nat, Seq<bool>), EncodeError>((side, modules)),
    ensures
        encode_outcome(with_version(request, Some(v))) is Ok <==> side_of_version(v as nat) >= side,
        side_of_version(v as nat) < side ==> encode_outcome(with_version(request, Some(v)))
            == Err::<(nat, Seq<bool>), EncodeError>(EncodeError::VersionTooSmall),
        encode_outcome(with_version(request, Some(v))) matches Ok((forced_side, _))
            ==> forced_side == side_of_version(v as nat),
        side_of_version(v as nat) == side ==> encode_outcome(with_version(request, Some(v)))
            == encode_outcome(with_version(request, None)),
{
}

/// Whether the data fits does not depend on the forced version: the encoder
/// reports `DataTooLarge` with a forced version exactly when it does without.
pub proof fn law_capacity_ignores_forced_version(request: EncodeRequest, v: u8)
    ensures
        encode_outcome(with_version(request, Some(v))) == Err::<(nat, Seq<bool>), EncodeError>(EncodeError::DataTooLarge)
            <==> encode_outcome(with_version(request, None)) == Err::<(nat, Seq<bool>), EncodeError>(EncodeError::DataTooLarge),
{
}

/// A larger version holds at least as much: if the data fits when version
/// `v` is forced, it fits when any version `w >= v` is forced.
pub proof fn law_larger_version_still_fits(request: EncodeRequest, v: u8, w: u8)
    requires
        v <= w,
        encode_outcome(with_version(request, Some(v))) is Ok,
    ensures
        encode_outcome(with_version(request, Some(w))) is Ok,
{
}

/// A symbol built at a forced version `v` has side `4 * v + 17`.
pub proof fn law_forced_version_fixes_side(request: EncodeRequest, v: u8)
    ensures
        encode_outcome(with_version(request, Some(v))) matches Ok((side, _)) ==> side == side_of_version(v as nat),
{
}

} // verus!
