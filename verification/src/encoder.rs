//! The hand-off to `fast_qr`'s encoder.
//!
//! An [`Encoder`] is a `fast_qr::QRBuilder` together with the request it has
//! been given so far. Only the functions of this module create or change one,
//! and each of them hands exactly the recorded setting to `fast_qr`, so the
//! recorded request is what the builder holds.

use vstd::prelude::*;

use fast_qr::Version::{
    V01, V02, V03, V04, V05, V06, V07, V08, V09, V10, V11, V12, V13, V14, V15, V16, V17, V18,
    V19, V20, V21, V22, V23, V24, V25, V26, V27, V28, V29, V30, V31, V32, V33, V34, V35, V36,
    V37, V38, V39, V40,
};
use fast_qr::Mask as FastQrMask;
use fast_qr::Mode as FastQrMode;
use fast_qr::QRBuilder as FastQrBuilder;
use fast_qr::QRCode as FastQrCode;
use fast_qr::qr::QRCodeError as FastQrError;
use fast_qr::ECL as FastQrEcl;

use crate::error::EncodeError;
use crate::options::{Mask, Mode, ECL};
use crate::symbol::{qr_modules, qr_size, side_of_version, is_symbol_side};
use crate::version::is_version_number;

verus! {

#[verifier::external_type_specification]
#[verifier::external_body]
pub struct ExFastQrBuilder(FastQrBuilder);

/// Everything the encoder is asked: the data and the forced settings.
pub struct EncodeRequest {
    pub data: Seq<u8>,
    pub ecl: Option<ECL>,
    pub mode: Option<Mode>,
    pub version: Option<u8>,
    pub mask: Option<Mask>,
}

/// What `fast_qr` makes of `data` at error correction level `ecl`, with the
/// mode and mask forced or (`None`) chosen by `fast_qr`: `None` when no
/// version can hold the data; otherwise the smallest version that holds it,
/// and, for each version from there up to 40, the module values of the
/// symbol built at that version.
pub uninterp spec fn qr_encoding(data: Seq<u8>, ecl: ECL, mode: Option<Mode>, mask: Option<Mask>) -> Option<(u8, Map<u8, Seq<bool>>)>;

/// Whether `b` is an ASCII digit.
pub open spec fn is_digit_byte(b: u8) -> bool {
    48 <= b <= 57
}

/// Whether `b` is one of the 45 characters of the alphanumeric mode: digits,
/// uppercase letters, space and `$%*+-./:`.
pub open spec fn is_alphanumeric_byte(b: u8) -> bool {
    is_digit_byte(b) || (65 <= b <= 90) || b == 32 || b == 36 || b == 37 || b == 42 || b == 43
        || b == 45 || b == 46 || b == 47 || b == 58
}

/// Whether a forced mode can encode `data`: the numeric mode takes digits
/// only, the alphanumeric mode its 45 characters only; the byte mode, or no
/// forced mode, takes anything.
pub open spec fn mode_admits(mode: Option<Mode>, data: Seq<u8>) -> bool {
    match mode {
        Some(Mode::Numeric) => forall|i: int| 0 <= i < data.len() ==> is_digit_byte(#[trigger] data[i]),
        Some(Mode::Alphanumeric) => forall|i: int|
            0 <= i < data.len() ==> is_alphanumeric_byte(#[trigger] data[i]),
        _ => true,
    }
}

/// The numeric mode takes exactly the data made of the ASCII digits `0`
/// through `9`.
pub proof fn law_numeric_mode_takes_exactly_digits(data: Seq<u8>)
    ensures
        mode_admits(Some(Mode::Numeric), data) <==> forall|i: int|
            0 <= i < data.len() ==> '0' <= (#[trigger] data[i]) as char && data[i] as char <= '9',
{
}

/// The alphanumeric mode takes exactly the data made of its 45 characters:
/// `0`-`9`, `A`-`Z`, space, `$`, `%`, `*`, `+`, `-`, `.`, `/` and `:`.
pub proof fn law_alphanumeric_mode_takes_exactly_its_characters(data: Seq<u8>)
    ensures
        mode_admits(Some(Mode::Alphanumeric), data) <==> forall|i: int|
            0 <= i < data.len() ==> {
                let c = (#[trigger] data[i]) as char;
                ||| '0' <= c && c <= '9'
                ||| 'A' <= c && c <= 'Z'
                ||| c == ' '
                ||| c == '$'
                ||| c == '%'
                ||| c == '*'
                ||| c == '+'
                ||| c == '-'
                ||| c == '.'
                ||| c == '/'
                ||| c == ':'
            },
{
}

/// The byte mode, forced or chosen by the encoder, takes any data at all:
/// every byte value, UTF-8 text among it.
pub proof fn law_byte_mode_takes_any_data(data: Seq<u8>)
    ensures
        mode_admits(None, data),
        mode_admits(Some(Mode::Byte), data),
{
}

/// Whatever the numeric mode takes, the alphanumeric mode takes too.
pub proof fn law_numeric_data_is_alphanumeric(data: Seq<u8>)
    requires
        mode_admits(Some(Mode::Numeric), data),
    ensures
        mode_admits(Some(Mode::Alphanumeric), data),
{
}

/// The order of the levels by resilience: `L` < `M` < `Q` < `H`.
pub open spec fn level_rank(ecl: ECL) -> int {
    match ecl {
        ECL::L => 0,
        ECL::M => 1,
        ECL::Q => 2,
        ECL::H => 3,
    }
}

/// Whether the encoding `lower` holds everything `higher` holds: when
/// `higher` fits some version, `lower` fits too, in a version no larger.
pub open spec fn holds_at_least(
    lower: Option<(u8, Map<u8, Seq<bool>>)>,
    higher: Option<(u8, Map<u8, Seq<bool>>)>,
) -> bool {
    higher matches Some((least_higher, _)) ==> lower matches Some((least_lower, _))
        && least_lower <= least_higher
}

/// The error correction level used when none is forced: `Q`.
pub open spec fn level_or_default(ecl: Option<ECL>) -> ECL {
    match ecl {
        Some(level) => level,
        None => ECL::Q,
    }
}

/// The outcome of building a symbol from `encoding` (see [`qr_encoding`]) with
/// the version forced to `version` or (`None`) left to the encoder: the side
/// and module values of the symbol, or the reason none is built. The version
/// used is the forced one if it is large enough, the smallest one that holds
/// the data if none is forced.
pub open spec fn outcome_at_version(
    encoding: Option<(u8, Map<u8, Seq<bool>>)>,
    version: Option<u8>,
) -> Result<(nat, Seq<bool>), EncodeError> {
    match encoding {
        None => Err(EncodeError::DataTooLarge),
        Some((least, symbols)) => match version {
            None => Ok((side_of_version(least as nat), symbols[least])),
            Some(forced) => if forced < least {
                Err(EncodeError::VersionTooSmall)
            } else {
                Ok((side_of_version(forced as nat), symbols[forced]))
            },
        },
    }
}

/// The outcome of building a symbol for `request`.
pub open spec fn encode_outcome(request: EncodeRequest) -> Result<(nat, Seq<bool>), EncodeError> {
    outcome_at_version(
        qr_encoding(request.data, level_or_default(request.ecl), request.mode, request.mask),
        request.version,
    )
}

/// The side and module values of a built `fast_qr` symbol, or the error.
pub open spec fn built_symbol(r: Result<FastQrCode, EncodeError>) -> Result<(nat, Seq<bool>), EncodeError> {
    match r {
        Ok(code) => Ok((qr_size(code), qr_modules(code))),
        Err(e) => Err(e),
    }
}

/// A `fast_qr::QRBuilder` with the request it holds.
pub(crate) struct Encoder {
    builder: FastQrBuilder,
    request: Ghost<EncodeRequest>,
}

impl View for Encoder {
    type V = EncodeRequest;

    closed spec fn view(&self) -> EncodeRequest {
        self.request@
    }
}

/// Calls `fast_qr::QRBuilder::new`, which keeps a copy of the data and no
/// forced setting.
#[verifier::external_body]
pub(crate) fn encoder_new(data: &Vec<u8>) -> (enc: Encoder)
    ensures
        enc@ == (EncodeRequest { data: data@, ecl: None, mode: None, version: None, mask: None }),
{
    Encoder {
        builder: FastQrBuilder::new(data.clone()),
        request: Ghost(EncodeRequest { data: data@, ecl: None, mode: None, version: None, mask: None }),
    }
}

/// Calls `fast_qr::QRBuilder::ecl`, which forces the level.
#[verifier::external_body]
pub(crate) fn encoder_set_ecl(enc: &mut Encoder, ecl: ECL)
    ensures
        final(enc)@ == (EncodeRequest { ecl: Some(ecl), ..old(enc)@ }),
{
    enc.builder.ecl(match ecl {
        ECL::L => FastQrEcl::L,
        ECL::M => FastQrEcl::M,
        ECL::Q => FastQrEcl::Q,
        ECL::H => FastQrEcl::H,
    });
}

/// Calls `fast_qr::QRBuilder::mode`, which forces the mode.
#[verifier::external_body]
pub(crate) fn encoder_set_mode(enc: &mut Encoder, mode: Mode)
    ensures
        final(enc)@ == (EncodeRequest { mode: Some(mode), ..old(enc)@ }),
{
    enc.builder.mode(match mode {
        Mode::Numeric => FastQrMode::Numeric,
        Mode::Alphanumeric => FastQrMode::Alphanumeric,
        Mode::Byte => FastQrMode::Byte,
    });
}

/// Calls `fast_qr::QRBuilder::version`, which forces the version: entry `v`
/// of the table is `fast_qr::Version` number `v`.
#[verifier::external_body]
pub(crate) fn encoder_set_version(enc: &mut Encoder, version: u8)
    requires
        is_version_number(version as int),
    ensures
        final(enc)@ == (EncodeRequest { version: Some(version), ..old(enc)@ }),
{
    enc.builder.version([
        V01, V01, V02, V03, V04, V05, V06, V07, V08, V09, V10, V11, V12, V13, V14, V15, V16, V17,
        V18, V19, V20, V21, V22, V23, V24, V25, V26, V27, V28, V29, V30, V31, V32, V33, V34, V35,
        V36, V37, V38, V39, V40,
    ][version as usize]);
}

/// Calls `fast_qr::QRBuilder::mask`, which forces the mask.
#[verifier::external_body]
pub(crate) fn encoder_set_mask(enc: &mut Encoder, mask: Mask)
    ensures
        final(enc)@ == (EncodeRequest { mask: Some(mask), ..old(enc)@ }),
{
    enc.builder.mask(match mask {
        Mask::Checkerboard => FastQrMask::Checkerboard,
        Mask::HorizontalLines => FastQrMask::HorizontalLines,
        Mask::VerticalLines => FastQrMask::VerticalLines,
        Mask::DiagonalLines => FastQrMask::DiagonalLines,
        Mask::LargeCheckerboard => FastQrMask::LargeCheckerboard,
        Mask::Fields => FastQrMask::Fields,
        Mask::Diamonds => FastQrMask::Diamonds,
        Mask::Meadow => FastQrMask::Meadow,
    });
}

/// Calls `fast_qr::QRBuilder::build`: with the level defaulting to `Q`,
/// `fast_qr` fails with `EncodedData` when no version holds the data, with
/// `SpecifiedVersion` when the forced version is below the smallest that
/// does, and otherwise builds the symbol at the forced version, or at the
/// smallest one, whose side is `4 * version + 17`. Its numeric and
/// alphanumeric encoders panic on a byte their mode cannot encode, hence
/// the requirement on a forced mode. The mode `fast_qr` picks depends on the
/// data alone, and its capacity tables (`Version::get`) give, for every mode
/// and version, a capacity that shrinks from level `L` to `M` to `Q` to `H`:
/// data that fits at one level fits at every lower level, in a version no
/// larger, and data too large for one level is too large for every higher
/// level.
#[verifier::external_body]
pub(crate) fn encoder_build(enc: &Encoder) -> (r: Result<FastQrCode, EncodeError>)
    requires
        mode_admits(enc@.mode, enc@.data),
    ensures
        built_symbol(r) == outcome_at_version(
            qr_encoding(enc@.data, level_or_default(enc@.ecl), enc@.mode, enc@.mask),
            enc@.version,
        ),
        r matches Ok(code) ==> is_symbol_side(qr_size(code)),
        !(r matches Err(EncodeError::DataTooLarge)) ==> forall|lower: ECL|
            level_rank(lower) <= level_rank(level_or_default(enc@.ecl)) ==> holds_at_least(
                #[trigger] qr_encoding(enc@.data, lower, enc@.mode, enc@.mask),
                qr_encoding(enc@.data, level_or_default(enc@.ecl), enc@.mode, enc@.mask),
            ),
        r matches Err(EncodeError::DataTooLarge) ==> forall|higher: ECL|
            level_rank(higher) >= level_rank(level_or_default(enc@.ecl))
                ==> #[trigger] qr_encoding(enc@.data, higher, enc@.mode, enc@.mask) is None,
{
    match enc.builder.build() {
        Ok(code) => Ok(code),
        Err(FastQrError::EncodedData) => Err(EncodeError::DataTooLarge),
        Err(FastQrError::SpecifiedVersion) => Err(EncodeError::VersionTooSmall),
    }
}

} // verus!
