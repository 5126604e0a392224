//! What the scan-credential issuer and the checkpoint engine take in and
//! hand out.

use vstd::prelude::*;

verus! {

/// What a scannable code once held in the clear.
#[derive(Debug, Clone, PartialEq, Eq)]
pub struct QRDataPayload {
    pub user_id: String,
    pub session_id: String,
    pub timestamp: i64,
}

/// A freshly issued scan credential: its identifier, the principal it is
/// for, the token to render as a code, and its expiry in seconds since the
/// Unix epoch.
#[derive(Debug, Clone, PartialEq, Eq)]
pub struct QRGenerateResponse {
    pub id: String,
    pub user_id: String,
    pub qr_data: String,
    pub expires_at: i64,
}

/// The mathematical value of a `QRGenerateResponse`.
pub struct QRGenerateResponseModel {
    pub id: Seq<char>,
    pub user_id: Seq<char>,
    pub qr_data: Seq<char>,
    pub expires_at: i64,
}

impl DeepView for QRGenerateResponse {
    type V = QRGenerateResponseModel;

    open spec fn deep_view(&self) -> QRGenerateResponseModel {
        QRGenerateResponseModel {
            id: self.id@,
            user_id: self.user_id@,
            qr_data: self.qr_data@,
            expires_at: self.expires_at,
        }
    }
}

/// A scan as the venue's device submits it.
#[derive(Debug, Clone, PartialEq, Eq)]
pub struct ScanQRRequest {
    pub qr_data: String,
}

/// The machine-readable part of a negative outcome.
#[derive(Debug, Clone, PartialEq, Eq)]
pub struct ScanQRError {
    pub code: String,
    pub message: String,
    pub category: String,
}

/// The mathematical value of a `ScanQRError`.
pub struct ScanQRErrorModel {
    pub code: Seq<char>,
    pub message: Seq<char>,
    pub category: Seq<char>,
}

impl DeepView for ScanQRError {
    type V = ScanQRErrorModel;

    open spec fn deep_view(&self) -> ScanQRErrorModel {
        ScanQRErrorModel { code: self.code@, message: self.message@, category: self.category@ }
    }
}

/// A snapshot of the participation that an outcome speaks of. Instants are
/// microseconds since the Unix epoch.
#[derive(Debug, Clone, PartialEq, Eq)]
pub struct ScanQRData {
    pub user_name: String,
    pub student_id: String,
    pub participation_status: String,
    pub checked_in_at: Option<i64>,
    pub checked_out_at: Option<i64>,
}

/// The mathematical value of a `ScanQRData`.
pub struct ScanQRDataModel {
    pub user_name: Seq<char>,
    pub student_id: Seq<char>,
    pub participation_status: Seq<char>,
    pub checked_in_at: Option<i64>,
    pub checked_out_at: Option<i64>,
}

impl DeepView for ScanQRData {
    type V = ScanQRDataModel;

    open spec fn deep_view(&self) -> ScanQRDataModel {
        ScanQRDataModel {
            user_name: self.user_name@,
            student_id: self.student_id@,
            participation_status: self.participation_status@,
            checked_in_at: self.checked_in_at,
            checked_out_at: self.checked_out_at,
        }
    }
}

/// The outcome of a scan as the scanning device receives it.
#[derive(Debug, Clone, PartialEq, Eq)]
pub struct ScanQRResponse {
    pub success: bool,
    pub message: String,
    pub data: Option<ScanQRData>,
    pub error: Option<ScanQRError>,
}

/// The mathematical value of a `ScanQRResponse`.
pub struct ScanQRResponseModel {
    pub success: bool,
    pub message: Seq<char>,
    pub data: Option<ScanQRDataModel>,
    pub error: Option<ScanQRErrorModel>,
}

impl DeepView for ScanQRResponse {
    type V = ScanQRResponseModel;

    open spec fn deep_view(&self) -> ScanQRResponseModel {
        ScanQRResponseModel {
            success: self.success,
            message: self.message@,
            data: self.data.deep_view(),
            error: self.error.deep_view(),
        }
    }
}

/// The claim set of a scan credential: the principal, the session it was
/// derived from, issue time and expiry in seconds since the Unix epoch, and
/// an identifier that tells successive reissues apart.
#[derive(Debug, Clone, PartialEq, Eq)]
pub struct QRTokenClaims {
    pub sub: String,
    pub session_id: String,
    pub iat: u64,
    pub exp: u64,
    pub jti: String,
}

/// The mathematical value of a `QRTokenClaims`.
pub struct QRTokenClaimsModel {
    pub sub: Seq<char>,
    pub session_id: Seq<char>,
    pub iat: u64,
    pub exp: u64,
    pub jti: Seq<char>,
}

impl DeepView for QRTokenClaims {
    type V = QRTokenClaimsModel;

    open spec fn deep_view(&self) -> QRTokenClaimsModel {
        QRTokenClaimsModel {
            sub: self.sub@,
            session_id: self.session_id@,
            iat: self.iat,
            exp: self.exp,
            jti: self.jti@,
        }
    }
}

} // verus!
