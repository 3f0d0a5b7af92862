//! The `fast_qr` types that flow through the library, declared to Verus as
//! opaque values.

use vstd::prelude::*;

use fast_qr::Module as FastQrModule;
use fast_qr::QRCode as FastQrCode;

verus! {

#[verifier::external_type_specification]
#[verifier::external_body]
pub struct ExFastQrCode(FastQrCode);

// `fast_qr::QRCode`'s `Index` impl yields `fast_qr::Module` slices, so Verus
// needs this type declared as well to accept the code type.
#[verifier::external_type_specification]
#[verifier::external_body]
pub struct ExFastQrModule(FastQrModule);

} // verus!
