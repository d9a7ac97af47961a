//! Password-protected archives: a single source file becomes a one-entry,
//! deflate-compressed, AES-256 encrypted archive under a freshly generated
//! password.

use vstd::prelude::*;
use crate::password::{all_alphanumeric, random_alphanumeric, PASSWORD_LENGTH};
use crate::text::zip_path_for;

verus! {

/// Failures of archive handling: the source could not be read, the
/// archive encoder or decoder refused, or the archive file could not be
/// written out.
#[derive(Debug, Clone, PartialEq, Eq)]
pub enum IoError {
    SourceUnreadable,
    ArchiveEncoding { detail: String },
    ArchiveReading { detail: String },
    ArchiveWrite { detail: String },
}

/// An encrypted bundle: where it lives, the secret that opens it, and the
/// name of the file it came from.
#[derive(Debug)]
pub struct Archive {
    pub path: String,
    pub password: String,
    pub source_file_name: String,
}

impl Archive {
    /// Every archive carries a fixed-length alphanumeric password.
    pub open spec fn wf(self) -> bool {
        self.password@.len() == PASSWORD_LENGTH && all_alphanumeric(self.password@)
    }
}

/// The longest suffix of `s` that holds no `/`: what follows the last
/// separator, or all of `s` when there is none.
pub open spec fn base_name_of(s: Seq<char>) -> Seq<char>
    decreases s.len(),
{
    if s.len() == 0 {
        s
    } else if s[s.len() - 1] == '/' {
        Seq::empty()
    } else {
        base_name_of(s.drop_last()).push(s[s.len() - 1])
    }
}

/// The name the archive entry carries: the source's base name, or `file`
/// when the path ends in a separator.
pub open spec fn entry_name_of(s: Seq<char>) -> Seq<char> {
    if base_name_of(s).len() == 0 {
        "file"@
    } else {
        base_name_of(s)
    }
}

proof fn lemma_base_name_subrange(s: Seq<char>, cut: int)
    requires
        0 <= cut <= s.len(),
        forall|i: int| cut <= i < s.len() ==> s[i] != '/',
        cut > 0 ==> s[cut - 1] == '/',
    ensures
        base_name_of(s) == s.subrange(cut, s.len() as int),
    decreases s.len(),
{
    if cut == s.len() {
        if s.len() == 0 {
            assert(base_name_of(s) =~= s.subrange(cut, s.len() as int));
        } else {
            assert(s[s.len() - 1] == '/');
            assert(base_name_of(s) =~= s.subrange(cut, s.len() as int));
        }
    } else {
        assert(s[s.len() - 1] != '/');
        let t = s.drop_last();
        assert(forall|i: int| cut <= i < t.len() ==> t[i] == s[i]);
        assert(cut > 0 ==> t[cut - 1] == s[cut - 1]);
        lemma_base_name_subrange(t, cut);
        assert(base_name_of(s) == base_name_of(t).push(s[s.len() - 1]));
        assert(t.subrange(cut, t.len() as int).push(s[s.len() - 1]) =~= s.subrange(
            cut,
            s.len() as int,
        ));
    }
}

/// Everything after the last `/` of the path.
pub fn base_name(path: &str) -> (r: String)
    ensures
        r@ == base_name_of(path@),
{
    let n = path.unicode_len();
    let mut cut: usize = 0;
    let mut j: usize = 0;
    while j < n
        invariant
            n == path@.len(),
            0 <= cut <= j <= n,
            cut > 0 ==> path@[cut - 1] == '/',
            forall|i: int| cut <= i < j ==> path@[i] != '/',
        decreases n - j,
    {
        if path.get_char(j) == '/' {
            cut = j + 1;
        }
        j = j + 1;
    }
    proof {
        lemma_base_name_subrange(path@, cut as int);
    }
    let tail = path.substring_char(cut, n);
    tail.to_owned()
}

/// The archive entry's name for a given source path.
pub fn entry_name(path: &str) -> (r: String)
    ensures
        r@ == entry_name_of(path@),
{
    let b = base_name(path);
    if b.as_str().unicode_len() == 0 {
        "file".to_owned()
    } else {
        b
    }
}

/// What extracting an archive's single entry with a password yields: the
/// entry's name and bytes, or nothing when the archive or the password is
/// refused. The outcome is a function of the archive bytes and the
/// password alone.
pub uninterp spec fn unzip_of(archive: Seq<u8>, password: Seq<char>) -> Option<(Seq<char>, Seq<u8>)>;

/// Relies on the zip crate's `ZipWriter`: packs one deflate-compressed,
/// AES-256 encrypted entry into an in-memory archive. Reading the produced
/// archive back with the same password yields that entry again.
#[verifier::external_body]
fn zip_encrypt_entry(name: &str, content: &[u8], password: &str) -> (r: Result<Vec<u8>, String>)
    ensures
        r matches Ok(data) ==> unzip_of(data@, password@) == Some((name@, content@)),
{
    let mut writer = zip::ZipWriter::new(std::io::Cursor::new(Vec::new()));
    let options = zip::write::SimpleFileOptions::default()
        .compression_method(zip::CompressionMethod::Deflated)
        .with_aes_encryption(zip::AesMode::Aes256, password);
    if let Err(e) = writer.start_file(name, options) {
        return Err(e.to_string());
    }
    if let Err(e) = std::io::Write::write_all(&mut writer, content) {
        return Err(e.to_string());
    }
    match writer.finish() {
        Ok(cursor) => Ok(cursor.into_inner()),
        Err(e) => Err(e.to_string()),
    }
}

/// Relies on the zip crate's `ZipArchive`: opens an in-memory archive and
/// decrypts its first entry under the given password; the result depends
/// on the archive bytes and the password alone.
#[verifier::external_body]
fn zip_extract_entry(data: &[u8], password: &str) -> (r: Result<(String, Vec<u8>), String>)
    ensures
        match unzip_of(data@, password@) {
            Some(entry) => r matches Ok(p) && p.0@ == entry.0 && p.1@ == entry.1,
            None => r is Err,
        },
{
    let mut archive = match zip::ZipArchive::new(std::io::Cursor::new(data.to_vec())) {
        Ok(a) => a,
        Err(e) => return Err(e.to_string()),
    };
    let mut entry = match archive.by_index_decrypt(0, password.as_bytes()) {
        Ok(f) => f,
        Err(e) => return Err(e.to_string()),
    };
    let name = entry.name().to_string();
    let mut content = Vec::new();
    if let Err(e) = std::io::Read::read_to_end(&mut entry, &mut content) {
        return Err(e.to_string());
    }
    Ok((name, content))
}

/// Builds the encrypted archive that belongs beside one source file.
pub struct ZipBuilder {
    temp_path: String,
}

impl ZipBuilder {
    /// Where the builder will place the archive for this source path.
    pub closed spec fn spec_path(self) -> Seq<char> {
        self.temp_path@
    }

    pub fn new(original_path: &str) -> (r: Self)
        ensures
            r.spec_path() == original_path@ + ".zip"@,
    {
        ZipBuilder { temp_path: zip_path_for(original_path) }
    }

    pub fn get_path(&self) -> (r: &str)
        ensures
            r@ == self.spec_path(),
    {
        self.temp_path.as_str()
    }

    /// The bytes of a one-entry encrypted archive holding `content` under
    /// `entry`, locked with `password`.
    pub fn create_archive(&self, entry: &str, content: &[u8], password: &str) -> (r: Result<
        Vec<u8>,
        String,
    >)
        ensures
            r matches Ok(data) ==> unzip_of(data@, password@) == Some((entry@, content@)),
    {
        zip_encrypt_entry(entry, content, password)
    }
}

/// Packs the readable source file into a fresh encrypted archive.
///
/// `source` carries the file's bytes, or `None` when the file could not be
/// read. On success the archive sits at the source path suffixed `.zip`,
/// its password is 16 alphanumeric characters drawn fresh for this call,
/// and opening the returned bytes with that password yields the source
/// content under the source's base name.
pub fn compress_file(file_path: &str, source: Option<Vec<u8>>) -> (r: Result<
    (Archive, Vec<u8>),
    IoError,
>)
    ensures
        (r matches Err(IoError::SourceUnreadable)) <==> source is None,
        r matches Ok(p) ==> {
            &&& p.0.wf()
            &&& p.0.path@ == file_path@ + ".zip"@
            &&& p.0.source_file_name@ == entry_name_of(file_path@)
            &&& unzip_of(p.1@, p.0.password@) == Some(
                (entry_name_of(file_path@), source.unwrap()@),
            )
        },
{
    let content = match source {
        Some(c) => c,
        None => {
            return Err(IoError::SourceUnreadable);
        },
    };
    let password = random_alphanumeric(PASSWORD_LENGTH);
    let entry = entry_name(file_path);
    let builder = ZipBuilder::new(file_path);
    let data = match builder.create_archive(entry.as_str(), content.as_slice(), password.as_str()) {
        Ok(d) => d,
        Err(detail) => {
            return Err(IoError::ArchiveEncoding { detail });
        },
    };
    let archive = Archive {
        path: builder.get_path().to_owned(),
        password,
        source_file_name: entry,
    };
    Ok((archive, data))
}

/// Opens a one-entry encrypted archive: the entry's name and bytes when
/// the password fits, an error otherwise.
pub fn extract_entry(data: &[u8], password: &str) -> (r: Result<(String, Vec<u8>), IoError>)
    ensures
        match unzip_of(data@, password@) {
            Some(entry) => r matches Ok(p) && p.0@ == entry.0 && p.1@ == entry.1,
            None => r is Err,
        },
        r is Err ==> r matches Err(IoError::ArchiveReading { .. }),
{
    match zip_extract_entry(data, password) {
        Ok(p) => Ok(p),
        Err(detail) => Err(IoError::ArchiveReading { detail }),
    }
}

} // verus!
