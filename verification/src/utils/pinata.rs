//! Addresses and messages of the file store that proofs are uploaded to.
use vstd::prelude::*;

verus! {

/// What the file store answers about an uploaded file.
pub struct PinataUploadFileData {
    pub id: String,
    pub name: String,
    pub cid: String,
    pub size: u64,
    pub number_of_files: u64,
    pub mime_type: String,
    pub user_id: String,
    pub group_id: String,
    pub is_duplicate: Option<bool>,
    pub created_at: String,
}

/// The file store's answer to an upload or a lookup.
pub struct PinataUploadFileResponse {
    pub data: PinataUploadFileData,
}

/// The file store's base address.
pub open spec fn spec_upload_base() -> Seq<char> {
    "https://uploads.pinata.cloud"@
}

/// The address that files are uploaded to: the base address and `/v3/files`.
pub fn upload_url() -> (res: String)
    ensures
        res@ == spec_upload_base() + "/v3/files"@,
{
    let mut url = String::from_str("https://uploads.pinata.cloud");
    url.append("/v3/files");
    url
}

/// The address of the uploaded file `file_id`: the base address, `/v3/files/`
/// and the id.
pub fn file_url(file_id: &str) -> (res: String)
    ensures
        res@ == spec_upload_base() + "/v3/files/"@ + file_id@,
{
    let mut url = String::from_str("https://uploads.pinata.cloud");
    url.append("/v3/files/");
    url.append(file_id);
    url
}

/// The error message of a refused upload: `Failed to upload file: ` and the
/// store's answer.
pub fn upload_failure_message(answer: &str) -> (res: String)
    ensures
        res@ == "Failed to upload file: "@ + answer@,
{
    let mut msg = String::from_str("Failed to upload file: ");
    msg.append(answer);
    msg
}

/// The error message of a refused lookup: `Failed to get file: ` and the
/// store's answer.
pub fn get_failure_message(answer: &str) -> (res: String)
    ensures
        res@ == "Failed to get file: "@ + answer@,
{
    let mut msg = String::from_str("Failed to get file: ");
    msg.append(answer);
    msg
}

} // verus!
