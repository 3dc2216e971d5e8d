//! Refreshing the page store: the decisions between the steps of an update.
//! The download and the unpacking onto the disk are the caller's part.

use vstd::prelude::*;
use crate::error::{ErrorModel, ShortcutError};

verus! {

/// How long the download may take, in seconds.
pub const DOWNLOAD_TIMEOUT_SECS: u64 = 10;

/// What a successful update reports.
pub const UPDATE_DONE: &'static str = "Successfully updated cache";

/// `zip::read::ZipArchive`: an archive that was opened over a reader. The
/// verifier sees nothing inside it.
#[verifier::external_type_specification]
#[verifier::external_body]
#[verifier::reject_recursive_types(R)]
pub struct ExZipArchive<R>(zip::read::ZipArchive<R>);

/// `std::io::Cursor`: a reader over bytes in memory. The verifier sees
/// nothing inside it.
#[verifier::external_type_specification]
#[verifier::external_body]
#[verifier::reject_recursive_types(T)]
pub struct ExCursor<T>(std::io::Cursor<T>);

/// `zip::result::ZipError`: why an archive could not be read. The verifier
/// sees nothing inside it.
#[verifier::external_type_specification]
#[verifier::external_body]
pub struct ExZipError(zip::result::ZipError);

/// Whether the page directory may be written to. It may where it could be
/// created or was there, its metadata could be read, and they do not say
/// that it is read-only.
pub open spec fn write_permission_of(dir_created: bool, read_only: Option<bool>) -> Result<
    (),
    ErrorModel,
> {
    if !dir_created || read_only is None {
        Err(ErrorModel::StoreUnreadable)
    } else if read_only == Some(true) {
        Err(ErrorModel::StoreReadOnly)
    } else {
        Ok(())
    }
}

/// Judges what was found when the page directory was made ready for
/// writing: whether it could be created, and what its metadata say, if they
/// could be read.
pub fn has_write_permission(dir_created: bool, read_only: Option<bool>) -> (r: Result<
    (),
    ShortcutError,
>)
    ensures
        match write_permission_of(dir_created, read_only) {
            Ok(_) => r is Ok,
            Err(error) => r is Err && r->Err_0@ == error,
        },
{
    if !dir_created {
        return Err(ShortcutError::StoreUnreadable);
    }
    match read_only {
        None => Err(ShortcutError::StoreUnreadable),
        Some(true) => Err(ShortcutError::StoreReadOnly),
        Some(false) => Ok(()),
    }
}

/// The proxies to route the download through: the one for HTTP, then the
/// one for HTTPS, each where it is set.
pub open spec fn proxy_hosts_of(http_proxy: Option<Seq<char>>, https_proxy: Option<Seq<char>>) -> Seq<
    Seq<char>,
> {
    (match http_proxy {
        Some(host) => seq![host],
        None => Seq::empty(),
    }) + (match https_proxy {
        Some(host) => seq![host],
        None => Seq::empty(),
    })
}

/// Lists the proxies to route the download through, from what the
/// environment holds for HTTP and for HTTPS.
pub fn proxy_hosts(http_proxy: Option<String>, https_proxy: Option<String>) -> (hosts: Vec<String>)
    ensures
        hosts.deep_view() == proxy_hosts_of(
            match http_proxy {
                Some(host) => Some(host@),
                None => None,
            },
            match https_proxy {
                Some(host) => Some(host@),
                None => None,
            },
        ),
{
    let mut hosts: Vec<String> = Vec::new();
    if let Some(host) = http_proxy {
        hosts.push(host);
    }
    let ghost first = hosts.deep_view();
    if let Some(host) = https_proxy {
        hosts.push(host);
        assert(hosts.deep_view() =~= first.push(host@));
    }
    assert(hosts.deep_view() =~= proxy_hosts_of(
        match http_proxy {
            Some(host) => Some(host@),
            None => None,
        },
        match https_proxy {
            Some(host) => Some(host@),
            None => None,
        },
    ));
    hosts
}

/// Whether `zip::read::ZipArchive::new` finds the directory of a ZIP archive
/// in the given bytes and can read all of its entries.
pub uninterp spec fn is_zip_archive(bytes: Seq<u8>) -> bool;

/// Calls `zip::read::ZipArchive::new` on a cursor over the bytes. Whether
/// it returns an archive depends on the bytes alone.
#[verifier::external_body]
fn read_archive(bytes: Vec<u8>) -> (r: Result<
    zip::read::ZipArchive<std::io::Cursor<Vec<u8>>>,
    zip::result::ZipError,
>)
    ensures
        r is Ok <==> is_zip_archive(bytes@),
{
    zip::read::ZipArchive::new(std::io::Cursor::new(bytes))
}

/// Opens the downloaded bundle as an archive. Bytes that hold no readable
/// archive are an error of the archive.
pub fn open_archive(bytes: Vec<u8>) -> (r: Result<
    zip::read::ZipArchive<std::io::Cursor<Vec<u8>>>,
    ShortcutError,
>)
    ensures
        r is Ok <==> is_zip_archive(bytes@),
        r is Err ==> r->Err_0@ == ErrorModel::Archive,
{
    match read_archive(bytes) {
        Ok(archive) => Ok(archive),
        Err(_) => Err(ShortcutError::Archive),
    }
}

} // verus!
