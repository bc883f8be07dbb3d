//! The boundary response protocol: every operation's outcome becomes a record
//! with a status code, an optional error message and its payload.
use crate::errors::{manager_err_text, SectorManagerErr};
use vstd::prelude::*;

verus! {

/// Outcome classes reported across the boundary.
#[derive(PartialEq, Eq, Structural, Debug, Clone, Copy)]
pub enum SBResponseStatus {
    SBNoError,
    SBUnclassifiedError,
    SBCallerError,
    SBReceiverError,
}

/// The status that reports a result: no error on success, else the error's kind.
pub open spec fn response_status<T>(r: Result<T, SectorManagerErr>) -> SBResponseStatus {
    match r {
        Ok(_) => SBResponseStatus::SBNoError,
        Err(SectorManagerErr::UnclassifiedError(_)) => SBResponseStatus::SBUnclassifiedError,
        Err(SectorManagerErr::CallerError(_)) => SBResponseStatus::SBCallerError,
        Err(SectorManagerErr::ReceiverError(_)) => SBResponseStatus::SBReceiverError,
    }
}

/// The message that reports a result: none on success, else the error's text.
pub open spec fn response_message<T>(r: Result<T, SectorManagerErr>) -> Option<Seq<char>> {
    match r {
        Ok(_) => None,
        Err(e) => Some(manager_err_text(e)),
    }
}

/// The text of an optional message.
pub open spec fn message_view(m: Option<String>) -> Option<Seq<char>> {
    match m {
        Some(s) => Some(s@),
        None => None,
    }
}

/// Reports a result as a status code.
pub trait ToResponseStatus {
    spec fn spec_response_status(&self) -> SBResponseStatus;

    fn to_response_status(&self) -> (r: SBResponseStatus)
        ensures
            r == self.spec_response_status(),
    ;
}

impl<T> ToResponseStatus for Result<T, SectorManagerErr> {
    open spec fn spec_response_status(&self) -> SBResponseStatus {
        response_status(*self)
    }

    fn to_response_status(&self) -> (r: SBResponseStatus) {
        match self {
            Ok(_) => SBResponseStatus::SBNoError,
            Err(e) => match e {
                SectorManagerErr::UnclassifiedError(_) => SBResponseStatus::SBUnclassifiedError,
                SectorManagerErr::CallerError(_) => SBResponseStatus::SBCallerError,
                SectorManagerErr::ReceiverError(_) => SBResponseStatus::SBReceiverError,
            },
        }
    }
}

/// The message that reports a result.
pub fn response_error_msg<T>(r: &Result<T, SectorManagerErr>) -> (m: Option<String>)
    ensures
        message_view(m) == response_message(*r),
{
    match r {
        Ok(_) => None,
        Err(e) => Some(e.message()),
    }
}

/// A new access in the sealed directory.
pub struct NewSealedSectorAccessResponse {
    pub status_code: SBResponseStatus,
    pub error_msg: Option<String>,
    pub sector_access: Option<String>,
}

impl Default for NewSealedSectorAccessResponse {
    fn default() -> (r: NewSealedSectorAccessResponse)
        ensures
            r.status_code == SBResponseStatus::SBNoError,
            r.error_msg is None,
            r.sector_access is None,
    {
        NewSealedSectorAccessResponse { status_code: SBResponseStatus::SBNoError, error_msg: None, sector_access: None }
    }
}

impl NewSealedSectorAccessResponse {
    /// The record that reports `res`.
    pub fn from_result(res: Result<String, SectorManagerErr>) -> (r: NewSealedSectorAccessResponse)
        ensures
            r.status_code == response_status(res),
            message_view(r.error_msg) == response_message(res),
            res matches Ok(v) ==> r.sector_access == Some(v),
            res is Err ==> r.sector_access is None,
    {
        let status_code = res.to_response_status();
        let error_msg = response_error_msg(&res);
        match res {
            Ok(v) => NewSealedSectorAccessResponse { status_code, error_msg, sector_access: Some(v) },
            Err(_) => NewSealedSectorAccessResponse { status_code, error_msg, sector_access: None },
        }
    }
}

/// A new access in the staging directory.
pub struct NewStagingSectorAccessResponse {
    pub status_code: SBResponseStatus,
    pub error_msg: Option<String>,
    pub sector_access: Option<String>,
}

impl Default for NewStagingSectorAccessResponse {
    fn default() -> (r: NewStagingSectorAccessResponse)
        ensures
            r.status_code == SBResponseStatus::SBNoError,
            r.error_msg is None,
            r.sector_access is None,
    {
        NewStagingSectorAccessResponse { status_code: SBResponseStatus::SBNoError, error_msg: None, sector_access: None }
    }
}

impl NewStagingSectorAccessResponse {
    /// The record that reports `res`.
    pub fn from_result(res: Result<String, SectorManagerErr>) -> (r: NewStagingSectorAccessResponse)
        ensures
            r.status_code == response_status(res),
            message_view(r.error_msg) == response_message(res),
            res matches Ok(v) ==> r.sector_access == Some(v),
            res is Err ==> r.sector_access is None,
    {
        let status_code = res.to_response_status();
        let error_msg = response_error_msg(&res);
        match res {
            Ok(v) => NewStagingSectorAccessResponse { status_code, error_msg, sector_access: Some(v) },
            Err(_) => NewStagingSectorAccessResponse { status_code, error_msg, sector_access: None },
        }
    }
}

/// The padded bytes that a write added.
pub struct WriteAndPreprocessResponse {
    pub status_code: SBResponseStatus,
    pub error_msg: Option<String>,
    pub num_bytes_written: u64,
}

impl Default for WriteAndPreprocessResponse {
    fn default() -> (r: WriteAndPreprocessResponse)
        ensures
            r.status_code == SBResponseStatus::SBNoError,
            r.error_msg is None,
            r.num_bytes_written == 0,
    {
        WriteAndPreprocessResponse { status_code: SBResponseStatus::SBNoError, error_msg: None, num_bytes_written: 0 }
    }
}

impl WriteAndPreprocessResponse {
    /// The record that reports `res`.
    pub fn from_result(res: Result<u64, SectorManagerErr>) -> (r: WriteAndPreprocessResponse)
        ensures
            r.status_code == response_status(res),
            message_view(r.error_msg) == response_message(res),
            res matches Ok(v) ==> r.num_bytes_written == v,
            res is Err ==> r.num_bytes_written == 0,
    {
        let status_code = res.to_response_status();
        let error_msg = response_error_msg(&res);
        match res {
            Ok(v) => WriteAndPreprocessResponse { status_code, error_msg, num_bytes_written: v },
            Err(_) => WriteAndPreprocessResponse { status_code, error_msg, num_bytes_written: 0 },
        }
    }
}

/// Bytes read from an access.
pub struct ReadRawResponse {
    pub status_code: SBResponseStatus,
    pub error_msg: Option<String>,
    pub data: Vec<u8>,
}

impl Default for ReadRawResponse {
    fn default() -> (r: ReadRawResponse)
        ensures
            r.status_code == SBResponseStatus::SBNoError,
            r.error_msg is None,
            r.data@.len() == 0,
    {
        ReadRawResponse { status_code: SBResponseStatus::SBNoError, error_msg: None, data: Vec::new() }
    }
}

impl ReadRawResponse {
    /// The record that reports `res`.
    pub fn from_result(res: Result<Vec<u8>, SectorManagerErr>) -> (r: ReadRawResponse)
        ensures
            r.status_code == response_status(res),
            message_view(r.error_msg) == response_message(res),
            res matches Ok(v) ==> r.data == v,
            res is Err ==> r.data@.len() == 0,
    {
        let status_code = res.to_response_status();
        let error_msg = response_error_msg(&res);
        match res {
            Ok(v) => ReadRawResponse { status_code, error_msg, data: v },
            Err(_) => ReadRawResponse { status_code, error_msg, data: Vec::new() },
        }
    }
}

/// The raw bytes that an access holds.
pub struct NumUnsealedBytesResponse {
    pub status_code: SBResponseStatus,
    pub error_msg: Option<String>,
    pub num_bytes: u64,
}

impl Default for NumUnsealedBytesResponse {
    fn default() -> (r: NumUnsealedBytesResponse)
        ensures
            r.status_code == SBResponseStatus::SBNoError,
            r.error_msg is None,
            r.num_bytes == 0,
    {
        NumUnsealedBytesResponse { status_code: SBResponseStatus::SBNoError, error_msg: None, num_bytes: 0 }
    }
}

impl NumUnsealedBytesResponse {
    /// The record that reports `res`.
    pub fn from_result(res: Result<u64, SectorManagerErr>) -> (r: NumUnsealedBytesResponse)
        ensures
            r.status_code == response_status(res),
            message_view(r.error_msg) == response_message(res),
            res matches Ok(v) ==> r.num_bytes == v,
            res is Err ==> r.num_bytes == 0,
    {
        let status_code = res.to_response_status();
        let error_msg = response_error_msg(&res);
        match res {
            Ok(v) => NumUnsealedBytesResponse { status_code, error_msg, num_bytes: v },
            Err(_) => NumUnsealedBytesResponse { status_code, error_msg, num_bytes: 0 },
        }
    }
}

/// The raw bytes that fit in a sector.
pub struct MaxUnsealedBytesPerSectorResponse {
    pub status_code: SBResponseStatus,
    pub error_msg: Option<String>,
    pub num_bytes: u64,
}

impl Default for MaxUnsealedBytesPerSectorResponse {
    fn default() -> (r: MaxUnsealedBytesPerSectorResponse)
        ensures
            r.status_code == SBResponseStatus::SBNoError,
            r.error_msg is None,
            r.num_bytes == 0,
    {
        MaxUnsealedBytesPerSectorResponse { status_code: SBResponseStatus::SBNoError, error_msg: None, num_bytes: 0 }
    }
}

impl MaxUnsealedBytesPerSectorResponse {
    /// The record that reports `res`.
    pub fn from_result(res: Result<u64, SectorManagerErr>) -> (r: MaxUnsealedBytesPerSectorResponse)
        ensures
            r.status_code == response_status(res),
            message_view(r.error_msg) == response_message(res),
            res matches Ok(v) ==> r.num_bytes == v,
            res is Err ==> r.num_bytes == 0,
    {
        let status_code = res.to_response_status();
        let error_msg = response_error_msg(&res);
        match res {
            Ok(v) => MaxUnsealedBytesPerSectorResponse { status_code, error_msg, num_bytes: v },
            Err(_) => MaxUnsealedBytesPerSectorResponse { status_code, error_msg, num_bytes: 0 },
        }
    }
}

/// The user bytes that fit in a staged sector.
pub struct GetMaxUserBytesPerStagedSectorResponse {
    pub status_code: SBResponseStatus,
    pub error_msg: Option<String>,
    pub num_bytes: u64,
}

impl Default for GetMaxUserBytesPerStagedSectorResponse {
    fn default() -> (r: GetMaxUserBytesPerStagedSectorResponse)
        ensures
            r.status_code == SBResponseStatus::SBNoError,
            r.error_msg is None,
            r.num_bytes == 0,
    {
        GetMaxUserBytesPerStagedSectorResponse { status_code: SBResponseStatus::SBNoError, error_msg: None, num_bytes: 0 }
    }
}

impl GetMaxUserBytesPerStagedSectorResponse {
    /// The record that reports `res`.
    pub fn from_result(res: Result<u64, SectorManagerErr>) -> (r: GetMaxUserBytesPerStagedSectorResponse)
        ensures
            r.status_code == response_status(res),
            message_view(r.error_msg) == response_message(res),
            res matches Ok(v) ==> r.num_bytes == v,
            res is Err ==> r.num_bytes == 0,
    {
        let status_code = res.to_response_status();
        let error_msg = response_error_msg(&res);
        match res {
            Ok(v) => GetMaxUserBytesPerStagedSectorResponse { status_code, error_msg, num_bytes: v },
            Err(_) => GetMaxUserBytesPerStagedSectorResponse { status_code, error_msg, num_bytes: 0 },
        }
    }
}

/// The bytes that fit in a staged sector.
pub struct GetMaxStagedBytesPerSector {
    pub status_code: SBResponseStatus,
    pub error_msg: Option<String>,
    pub max_staged_bytes_per_sector: u64,
}

impl Default for GetMaxStagedBytesPerSector {
    fn default() -> (r: GetMaxStagedBytesPerSector)
        ensures
            r.status_code == SBResponseStatus::SBNoError,
            r.error_msg is None,
            r.max_staged_bytes_per_sector == 0,
    {
        GetMaxStagedBytesPerSector { status_code: SBResponseStatus::SBNoError, error_msg: None, max_staged_bytes_per_sector: 0 }
    }
}

impl GetMaxStagedBytesPerSector {
    /// The record that reports `res`.
    pub fn from_result(res: Result<u64, SectorManagerErr>) -> (r: GetMaxStagedBytesPerSector)
        ensures
            r.status_code == response_status(res),
            message_view(r.error_msg) == response_message(res),
            res matches Ok(v) ==> r.max_staged_bytes_per_sector == v,
            res is Err ==> r.max_staged_bytes_per_sector == 0,
    {
        let status_code = res.to_response_status();
        let error_msg = response_error_msg(&res);
        match res {
            Ok(v) => GetMaxStagedBytesPerSector { status_code, error_msg, max_staged_bytes_per_sector: v },
            Err(_) => GetMaxStagedBytesPerSector { status_code, error_msg, max_staged_bytes_per_sector: 0 },
        }
    }
}

/// The sector that a piece was added to.
pub struct AddPieceResponse {
    pub status_code: SBResponseStatus,
    pub error_msg: Option<String>,
    pub sector_id: u64,
}

impl Default for AddPieceResponse {
    fn default() -> (r: AddPieceResponse)
        ensures
            r.status_code == SBResponseStatus::SBNoError,
            r.error_msg is None,
            r.sector_id == 0,
    {
        AddPieceResponse { status_code: SBResponseStatus::SBNoError, error_msg: None, sector_id: 0 }
    }
}

impl AddPieceResponse {
    /// The record that reports `res`.
    pub fn from_result(res: Result<u64, SectorManagerErr>) -> (r: AddPieceResponse)
        ensures
            r.status_code == response_status(res),
            message_view(r.error_msg) == response_message(res),
            res matches Ok(v) ==> r.sector_id == v,
            res is Err ==> r.sector_id == 0,
    {
        let status_code = res.to_response_status();
        let error_msg = response_error_msg(&res);
        match res {
            Ok(v) => AddPieceResponse { status_code, error_msg, sector_id: v },
            Err(_) => AddPieceResponse { status_code, error_msg, sector_id: 0 },
        }
    }
}

/// Reports an outcome that carries no payload.
pub struct TruncateUnsealedResponse {
    pub status_code: SBResponseStatus,
    pub error_msg: Option<String>,
}

impl Default for TruncateUnsealedResponse {
    fn default() -> (r: TruncateUnsealedResponse)
        ensures
            r.status_code == SBResponseStatus::SBNoError,
            r.error_msg is None,
    {
        TruncateUnsealedResponse { status_code: SBResponseStatus::SBNoError, error_msg: None }
    }
}

impl TruncateUnsealedResponse {
    /// The record that reports `res`.
    pub fn from_result(res: Result<(), SectorManagerErr>) -> (r: TruncateUnsealedResponse)
        ensures
            r.status_code == response_status(res),
            message_view(r.error_msg) == response_message(res),
    {
        let status_code = res.to_response_status();
        let error_msg = response_error_msg(&res);
        TruncateUnsealedResponse { status_code, error_msg }
    }
}

} // verus!
