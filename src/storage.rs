use vstd::prelude::*;
use vstd::string::StrSliceExecFns;
use vstd::string::StringExecFns;

use crate::error::Error;

verus! {

/// The artifacts kept on disk.
#[derive(Debug, Clone, Copy, PartialEq, Eq, Structural)]
pub enum FileType {
    AccountPrivateKey,
    AccountPublicKey,
    PrivateKey,
    Certificate,
}

/// The lifecycle points around a file write at which hooks run.
#[derive(Debug, Clone, Copy, PartialEq, Eq, Structural)]
pub enum HookType {
    FilePreCreate,
    FilePreEdit,
    FilePostCreate,
    FilePostEdit,
}

/// What the storage engine reads of a certificate's settings.
pub struct Certificate {
    pub account_name: String,
    pub account_directory: String,
    pub crt_name: String,
    pub algo: String,
    pub crt_directory: String,
    pub cert_file_mode: u32,
    pub cert_file_owner: Option<String>,
    pub cert_file_group: Option<String>,
    pub pk_file_mode: u32,
    pub pk_file_owner: Option<String>,
    pub pk_file_group: Option<String>,
    pub env: Vec<(String, String)>,
}

/// Where a write takes place, and the environment of the certificate, as
/// handed to the hooks.
pub struct FileHookData {
    pub file_name: String,
    pub file_directory: String,
    pub file_path: String,
    pub env: Vec<(String, String)>,
}

/// A user or a group, by numeric id or by name.
pub enum Principal {
    Id(u32),
    Name(String),
}

/// The owner and group to give a file; `None` leaves one unchanged.
pub struct OwnerChange {
    pub user: Option<Principal>,
    pub group: Option<Principal>,
}

/// Names the unpadded base64url text of some bytes.
pub uninterp spec fn b64url_of(data: Seq<u8>) -> Seq<char>;

/// Relies on base64's `Engine::encode` with the `URL_SAFE_NO_PAD` engine: the
/// result is the unpadded base64url text of the bytes, a function of them alone.
#[verifier::external_body]
fn b64_encode(data: &[u8]) -> (r: String)
    ensures
        r@ == b64url_of(data@),
{
    base64::Engine::encode(&base64::engine::general_purpose::URL_SAFE_NO_PAD, data)
}

impl FileType {
    pub open spec fn is_account_key(self) -> bool {
        self is AccountPrivateKey || self is AccountPublicKey
    }

    /// The word that tells the artifact in a file name.
    pub open spec fn tag_spec(self) -> Seq<char> {
        match self {
            FileType::AccountPrivateKey => "priv-key"@,
            FileType::AccountPublicKey => "pub-key"@,
            FileType::PrivateKey => "pk"@,
            FileType::Certificate => "crt"@,
        }
    }

    /// The word that tells the artifact in a file name.
    pub fn tag(&self) -> (r: &'static str)
        ensures
            r@ == self.tag_spec(),
    {
        match self {
            FileType::AccountPrivateKey => "priv-key",
            FileType::AccountPublicKey => "pub-key",
            FileType::PrivateKey => "pk",
            FileType::Certificate => "crt",
        }
    }
}

/// The directory that holds an artifact.
pub open spec fn file_directory_spec(cert: &Certificate, file_type: FileType) -> Seq<char> {
    if file_type.is_account_key() {
        cert.account_directory@
    } else {
        cert.crt_directory@
    }
}

/// The name of an artifact's file.
pub open spec fn file_name_spec(cert: &Certificate, file_type: FileType) -> Seq<char> {
    if file_type.is_account_key() {
        b64url_of(vstd::utf8::encode_utf8(cert.account_name@)) + "."@ + file_type.tag_spec()
            + ".pem"@
    } else {
        cert.crt_name@ + "_"@ + cert.algo@ + "."@ + file_type.tag_spec() + ".pem"@
    }
}

/// A name put under a directory: an absolute name stands alone, and a
/// separator is added only where the directory does not end with one.
pub open spec fn joined_path(dir: Seq<char>, name: Seq<char>) -> Seq<char> {
    if name.len() > 0 && name[0] == '/' {
        name
    } else if dir.len() == 0 {
        name
    } else if dir.last() == '/' {
        dir + name
    } else {
        dir + "/"@ + name
    }
}

/// The full path of an artifact's file.
pub open spec fn file_path_spec(cert: &Certificate, file_type: FileType) -> Seq<char> {
    joined_path(file_directory_spec(cert, file_type), file_name_spec(cert, file_type))
}

fn join_path(dir: &str, name: &str) -> (r: String)
    ensures
        r@ == joined_path(dir@, name@),
{
    let name_len = name.unicode_len();
    if name_len > 0 && name.get_char(0) == '/' {
        return name.to_owned();
    }
    let dir_len = dir.unicode_len();
    if dir_len == 0 {
        name.to_owned()
    } else if dir.get_char(dir_len - 1) == '/' {
        dir.to_owned().concat(name)
    } else {
        dir.to_owned().concat("/").concat(name)
    }
}

/// Resolves an artifact to its directory, file name and full path.
pub fn get_file_full_path(cert: &Certificate, file_type: FileType) -> (r: (String, String, String))
    ensures
        r.0@ == file_directory_spec(cert, file_type),
        r.1@ == file_name_spec(cert, file_type),
        r.2@ == file_path_spec(cert, file_type),
{
    let base_path = match file_type {
        FileType::AccountPrivateKey | FileType::AccountPublicKey => cert.account_directory.clone(),
        FileType::PrivateKey | FileType::Certificate => cert.crt_directory.clone(),
    };
    let file_name = match file_type {
        FileType::AccountPrivateKey | FileType::AccountPublicKey => {
            let account = b64_encode(cert.account_name.as_str().as_bytes());
            account.concat(".").concat(file_type.tag()).concat(".pem")
        },
        FileType::PrivateKey | FileType::Certificate => {
            cert.crt_name.clone().concat("_").concat(cert.algo.as_str()).concat(".").concat(
                file_type.tag(),
            ).concat(".pem")
        },
    };
    let path = join_path(base_path.as_str(), file_name.as_str());
    (base_path, file_name, path)
}

/// Resolves an artifact to the full path of its file.
pub fn get_file_path(cert: &Certificate, file_type: FileType) -> (r: String)
    ensures
        r@ == file_path_spec(cert, file_type),
{
    let (_, _, path) = get_file_full_path(cert, file_type);
    path
}

/// Resolving an artifact is a function of the settings and the artifact:
/// two resolutions of the same pair give the same directory, name and path.
pub proof fn lemma_resolution_is_stable(
    cert1: &Certificate,
    cert2: &Certificate,
    file_type: FileType,
)
    requires
        cert1.account_name@ == cert2.account_name@,
        cert1.account_directory@ == cert2.account_directory@,
        cert1.crt_name@ == cert2.crt_name@,
        cert1.algo@ == cert2.algo@,
        cert1.crt_directory@ == cert2.crt_directory@,
    ensures
        file_directory_spec(cert1, file_type) == file_directory_spec(cert2, file_type),
        file_name_spec(cert1, file_type) == file_name_spec(cert2, file_type),
        file_path_spec(cert1, file_type) == file_path_spec(cert2, file_type),
{
}

/// Every character is an ASCII digit.
pub open spec fn all_digits(s: Seq<char>) -> bool {
    forall|i: int| 0 <= i < s.len() ==> '0' <= #[trigger] s[i] && s[i] <= '9'
}

/// The number that a string of decimal digits writes.
pub open spec fn decimal_value(s: Seq<char>) -> int
    decreases s.len(),
{
    if s.len() == 0 {
        0
    } else {
        decimal_value(s.drop_last()) * 10 + (s.last() as int - '0' as int)
    }
}

/// A principal written as a numeric id rather than a name.
pub open spec fn is_numeric(s: Seq<char>) -> bool {
    s.len() > 0 && all_digits(s)
}

/// `p` is what the text `s` names: an id where it is made of digits, a name
/// otherwise.
pub open spec fn principal_of(s: Seq<char>, p: Principal) -> bool {
    if is_numeric(s) {
        p == Principal::Id(decimal_value(s) as u32)
    } else {
        p matches Principal::Name(n) && n@ == s
    }
}

/// The text names a principal: a name, or an id that fits 32 bits.
pub open spec fn principal_fits(s: Seq<char>) -> bool {
    is_numeric(s) ==> decimal_value(s) <= u32::MAX
}

proof fn lemma_decimal_nonneg(s: Seq<char>)
    requires
        all_digits(s),
    ensures
        decimal_value(s) >= 0,
    decreases s.len(),
{
    if s.len() > 0 {
        assert(all_digits(s.drop_last()));
        lemma_decimal_nonneg(s.drop_last());
    }
}

proof fn lemma_decimal_grows(s: Seq<char>, k: int)
    requires
        all_digits(s),
        0 <= k <= s.len(),
    ensures
        decimal_value(s.take(k)) <= decimal_value(s),
    decreases s.len() - k,
{
    if k < s.len() {
        lemma_decimal_grows(s, k + 1);
        assert(s.take(k + 1).drop_last() =~= s.take(k));
        assert(s.take(k + 1).last() == s[k]);
        assert(all_digits(s.take(k)));
        lemma_decimal_nonneg(s.take(k));
    } else {
        assert(s.take(k) =~= s);
    }
}

fn parse_principal(s: &str) -> (r: Result<Principal, Error>)
    ensures
        principal_fits(s@) ==> (r matches Ok(p) && principal_of(s@, p)),
        !principal_fits(s@) ==> (r matches Err(Error::InvalidPrincipal(t)) && t@ == s@),
{
    let mut digits: bool = true;
    for c in it: s.chars()
        invariant
            it.seq() == s@,
            digits == (forall|i: int| 0 <= i < it.index() ==> '0' <= #[trigger] s@[i] && s@[i] <= '9'),
    {
        digits = digits && '0' <= c && c <= '9';
    }
    if s.is_empty() || !digits {
        return Ok(Principal::Name(s.to_owned()));
    }
    let mut value: u64 = 0;
    let mut too_large: bool = false;
    for c in it: s.chars()
        invariant
            it.seq() == s@,
            all_digits(s@),
            !too_large ==> value == decimal_value(s@.take(it.index() as int)) && value
                <= u32::MAX,
            too_large ==> decimal_value(s@) > u32::MAX,
    {
        if !too_large {
            assert(s@.take(it.index() + 1).drop_last() =~= s@.take(it.index() as int));
            assert(s@.take(it.index() + 1).last() == c);
            let next: u64 = value * 10 + (c as u64 - '0' as u64);
            if next > 0xffff_ffff {
                proof {
                    lemma_decimal_grows(s@, it.index() + 1);
                }
                too_large = true;
            } else {
                value = next;
            }
        }
    }
    if too_large {
        Err(Error::InvalidPrincipal(s.to_owned()))
    } else {
        assert(s@.take(s@.len() as int) =~= s@);
        Ok(Principal::Id(value as u32))
    }
}

fn parse_optional_principal(s: &Option<String>) -> (r: Result<Option<Principal>, Error>)
    ensures
        s is None ==> r matches Ok(None),
        s matches Some(t) ==> (principal_fits(t@) ==> (r matches Ok(Some(p)) && principal_of(
            t@,
            p,
        ))),
        s matches Some(t) ==> (!principal_fits(t@) ==> (r matches Err(
            Error::InvalidPrincipal(u),
        ) && u@ == t@)),
{
    match s {
        Some(t) => match parse_principal(t.as_str()) {
            Ok(p) => Ok(Some(p)),
            Err(e) => Err(e),
        },
        None => Ok(None),
    }
}

fn clone_optional(s: &Option<String>) -> (r: Option<String>)
    ensures
        r == *s,
{
    match s {
        Some(t) => Some(t.clone()),
        None => None,
    }
}

/// The owner and group settings that apply to an artifact; the account keys
/// have none, as they stay with the identity that runs the client.
pub open spec fn owner_settings(cert: &Certificate, file_type: FileType) -> Option<
    (Option<String>, Option<String>),
> {
    match file_type {
        FileType::Certificate => Some((cert.cert_file_owner, cert.cert_file_group)),
        FileType::PrivateKey => Some((cert.pk_file_owner, cert.pk_file_group)),
        _ => None,
    }
}

/// The access mode that an artifact's file is created with.
pub open spec fn file_mode_spec(cert: &Certificate, file_type: FileType) -> u32 {
    match file_type {
        FileType::Certificate => cert.cert_file_mode,
        FileType::PrivateKey => cert.pk_file_mode,
        _ => crate::DEFAULT_ACCOUNT_FILE_MODE,
    }
}

/// The step a write is at.
#[derive(Debug, Clone, Copy, PartialEq, Eq, Structural)]
pub enum WritePhase {
    Start,
    PreHook,
    Write,
    Chown,
    PostHook,
    Done,
}

/// What the caller is to do next for a write.
pub enum WriteAction {
    /// Run the hooks of this type with the run's `hook_data`.
    RunHook(HookType),
    /// Create or open the file at `hook_data.file_path` with this access mode,
    /// and write the run's `data` to it in full.
    WriteFile(u32),
    /// Give the file this owner and group.
    Chown(OwnerChange),
    /// The write is over, with this outcome.
    Finish(Result<(), Error>),
}

/// A write of one artifact, driven one action at a time: the caller performs
/// each action and hands its outcome to `step`.
pub struct WriteRun {
    pub file_type: FileType,
    pub hook_data: FileHookData,
    pub is_new: bool,
    pub mode: u32,
    pub owner: Option<(Option<String>, Option<String>)>,
    pub data: Vec<u8>,
    pub phase: WritePhase,
}

impl WriteRun {
    /// The hook that runs before the bytes are written.
    pub open spec fn pre_hook(self) -> HookType {
        if self.is_new {
            HookType::FilePreCreate
        } else {
            HookType::FilePreEdit
        }
    }

    /// The hook that runs once the file holds the bytes.
    pub open spec fn post_hook(self) -> HookType {
        if self.is_new {
            HookType::FilePostCreate
        } else {
            HookType::FilePostEdit
        }
    }

    /// The run has been set up for `file_type` of `cert` with these bytes.
    pub open spec fn prepared_for(
        self,
        cert: &Certificate,
        file_type: FileType,
        data: Seq<u8>,
        path_is_file: bool,
    ) -> bool {
        &&& self.file_type == file_type
        &&& self.hook_data.file_directory@ == file_directory_spec(cert, file_type)
        &&& self.hook_data.file_name@ == file_name_spec(cert, file_type)
        &&& self.hook_data.file_path@ == file_path_spec(cert, file_type)
        &&& self.hook_data.env@ == cert.env@
        &&& self.is_new == !path_is_file
        &&& self.mode == file_mode_spec(cert, file_type)
        &&& self.owner == owner_settings(cert, file_type)
        &&& self.data@ == data
        &&& self.phase == WritePhase::Start
    }

    /// The run stays the same write: only its phase moves.
    pub open spec fn same_write(self, other: WriteRun) -> bool {
        &&& self.file_type == other.file_type
        &&& self.hook_data == other.hook_data
        &&& self.is_new == other.is_new
        &&& self.mode == other.mode
        &&& self.owner == other.owner
        &&& self.data == other.data
    }

    /// Moves the write on by one step, given the outcome of the last action
    /// (`Ok(())` to begin). A failed action ends the write with its error.
    pub fn step(&mut self, outcome: Result<(), Error>) -> (r: WriteAction)
        ensures
            final(self).same_write(*old(self)),
            old(self).phase == WritePhase::Done ==> final(self).phase == WritePhase::Done
                && r matches WriteAction::Finish(Err(Error::UnexpectedEvent)),
            old(self).phase != WritePhase::Done && outcome is Err ==> final(self).phase
                == WritePhase::Done && r == WriteAction::Finish(outcome),
            old(self).phase == WritePhase::Start && outcome is Ok ==> final(self).phase
                == WritePhase::PreHook && r == WriteAction::RunHook(old(self).pre_hook()),
            old(self).phase == WritePhase::PreHook && outcome is Ok ==> final(self).phase
                == WritePhase::Write && r == WriteAction::WriteFile(old(self).mode),
            old(self).phase == WritePhase::Write && outcome is Ok ==> match old(self).owner {
                None => final(self).phase == WritePhase::PostHook && r == WriteAction::RunHook(
                    old(self).post_hook(),
                ),
                Some((user, group)) => if (user matches Some(u) && !principal_fits(u@)) {
                    final(self).phase == WritePhase::Done && (r matches WriteAction::Finish(
                        Err(Error::InvalidPrincipal(t)),
                    ) && t@ == user->0@)
                } else if (group matches Some(g) && !principal_fits(g@)) {
                    final(self).phase == WritePhase::Done && (r matches WriteAction::Finish(
                        Err(Error::InvalidPrincipal(t)),
                    ) && t@ == group->0@)
                } else {
                    &&& final(self).phase == WritePhase::Chown
                    &&& r matches WriteAction::Chown(c)
                    &&& (user is None ==> c.user is None)
                    &&& (user matches Some(u) ==> c.user matches Some(p) && principal_of(u@, p))
                    &&& (group is None ==> c.group is None)
                    &&& (group matches Some(g) ==> c.group matches Some(p) && principal_of(
                        g@,
                        p,
                    ))
                },
            },
            old(self).phase == WritePhase::Chown && outcome is Ok ==> final(self).phase
                == WritePhase::PostHook && r == WriteAction::RunHook(old(self).post_hook()),
            old(self).phase == WritePhase::PostHook && outcome is Ok ==> final(self).phase
                == WritePhase::Done && r == WriteAction::Finish(Ok(())),
    {
        if self.phase == WritePhase::Done {
            return WriteAction::Finish(Err(Error::UnexpectedEvent));
        }
        if let Err(e) = outcome {
            self.phase = WritePhase::Done;
            return WriteAction::Finish(Err(e));
        }
        match self.phase {
            WritePhase::Start => {
                self.phase = WritePhase::PreHook;
                if self.is_new {
                    WriteAction::RunHook(HookType::FilePreCreate)
                } else {
                    WriteAction::RunHook(HookType::FilePreEdit)
                }
            },
            WritePhase::PreHook => {
                self.phase = WritePhase::Write;
                WriteAction::WriteFile(self.mode)
            },
            WritePhase::Write => {
                match &self.owner {
                    None => {
                        self.phase = WritePhase::PostHook;
                        self.post_hook_action()
                    },
                    Some((user, group)) => {
                        let user = match parse_optional_principal(user) {
                            Ok(u) => u,
                            Err(e) => {
                                self.phase = WritePhase::Done;
                                return WriteAction::Finish(Err(e));
                            },
                        };
                        let group = match parse_optional_principal(group) {
                            Ok(g) => g,
                            Err(e) => {
                                self.phase = WritePhase::Done;
                                return WriteAction::Finish(Err(e));
                            },
                        };
                        self.phase = WritePhase::Chown;
                        WriteAction::Chown(OwnerChange { user, group })
                    },
                }
            },
            WritePhase::Chown => {
                self.phase = WritePhase::PostHook;
                self.post_hook_action()
            },
            _ => {
                self.phase = WritePhase::Done;
                WriteAction::Finish(Ok(()))
            },
        }
    }

    fn post_hook_action(&self) -> (r: WriteAction)
        ensures
            r == WriteAction::RunHook(self.post_hook()),
    {
        if self.is_new {
            WriteAction::RunHook(HookType::FilePostCreate)
        } else {
            WriteAction::RunHook(HookType::FilePostEdit)
        }
    }
}

fn owner_settings_of(cert: &Certificate, file_type: FileType) -> (r: Option<
    (Option<String>, Option<String>),
>)
    ensures
        r == owner_settings(cert, file_type),
{
    match file_type {
        FileType::Certificate => Some(
            (clone_optional(&cert.cert_file_owner), clone_optional(&cert.cert_file_group)),
        ),
        FileType::PrivateKey => Some(
            (clone_optional(&cert.pk_file_owner), clone_optional(&cert.pk_file_group)),
        ),
        _ => None,
    }
}

fn copy_env(env: &Vec<(String, String)>) -> (r: Vec<(String, String)>)
    ensures
        r@ == env@,
{
    let mut r: Vec<(String, String)> = Vec::new();
    for i in 0..env.len()
        invariant
            r@ == env@.take(i as int),
    {
        let (k, v) = &env[i];
        r.push((k.clone(), v.clone()));
        assert(r@ =~= env@.take(i + 1));
    }
    assert(env@.take(env@.len() as int) =~= env@);
    r
}

fn write_file(cert: &Certificate, file_type: FileType, data: &[u8], path_is_file: bool) -> (r:
    WriteRun)
    ensures
        r.prepared_for(cert, file_type, data@, path_is_file),
{
    let (file_directory, file_name, file_path) = get_file_full_path(cert, file_type);
    let mode = match file_type {
        FileType::Certificate => cert.cert_file_mode,
        FileType::PrivateKey => cert.pk_file_mode,
        _ => crate::DEFAULT_ACCOUNT_FILE_MODE,
    };
    WriteRun {
        file_type,
        hook_data: FileHookData { file_name, file_directory, file_path, env: copy_env(&cert.env) },
        is_new: !path_is_file,
        mode,
        owner: owner_settings_of(cert, file_type),
        data: vstd::slice::slice_to_vec(data),
        phase: WritePhase::Start,
    }
}

/// Sets up the write of the account key pair: first the private key, then
/// the public one. Each flag tells whether that file is already a regular file.
pub fn set_account_keypair(
    cert: &Certificate,
    private_pem: &[u8],
    public_pem: &[u8],
    private_is_file: bool,
    public_is_file: bool,
) -> (r: (WriteRun, WriteRun))
    ensures
        r.0.prepared_for(cert, FileType::AccountPrivateKey, private_pem@, private_is_file),
        r.1.prepared_for(cert, FileType::AccountPublicKey, public_pem@, public_is_file),
{
    let private_run = write_file(cert, FileType::AccountPrivateKey, private_pem, private_is_file);
    let public_run = write_file(cert, FileType::AccountPublicKey, public_pem, public_is_file);
    (private_run, public_run)
}

/// Sets up the write of a certificate's private key.
pub fn set_keypair(cert: &Certificate, private_pem: &[u8], path_is_file: bool) -> (r: WriteRun)
    ensures
        r.prepared_for(cert, FileType::PrivateKey, private_pem@, path_is_file),
{
    write_file(cert, FileType::PrivateKey, private_pem, path_is_file)
}

/// Sets up the write of a certificate chain.
pub fn write_certificate(cert: &Certificate, data: &[u8], path_is_file: bool) -> (r: WriteRun)
    ensures
        r.prepared_for(cert, FileType::Certificate, data@, path_is_file),
{
    write_file(cert, FileType::Certificate, data, path_is_file)
}

/// `path` is among the paths known to be regular files.
pub open spec fn is_listed(existing: Seq<String>, path: Seq<char>) -> bool {
    exists|j: int| 0 <= j < existing.len() && (#[trigger] existing[j])@ == path
}

fn is_listed_exec(existing: &[String], path: &String) -> (r: bool)
    ensures
        r == is_listed(existing@, path@),
{
    let mut found: bool = false;
    for j in 0..existing.len()
        invariant
            found == (exists|k: int| 0 <= k < j && (#[trigger] existing@[k])@ == path@),
    {
        if existing[j] == *path {
            found = true;
        }
    }
    found
}

fn check_files(cert: &Certificate, file_types: &[FileType], existing: &[String]) -> (r: bool)
    ensures
        r == (forall|i: int|
            0 <= i < file_types@.len() ==> is_listed(
                existing@,
                file_path_spec(cert, #[trigger] file_types@[i]),
            )),
{
    let mut all: bool = true;
    for i in 0..file_types.len()
        invariant
            all == (forall|k: int|
                0 <= k < i ==> is_listed(existing@, file_path_spec(cert, #[trigger] file_types@[k]))),
    {
        let path = get_file_path(cert, file_types[i]);
        let present = is_listed_exec(existing, &path);
        all = all && present;
    }
    all
}

/// Both account key files are regular files; `existing` lists the paths that
/// are.
pub fn account_files_exists(cert: &Certificate, existing: &[String]) -> (r: bool)
    ensures
        r == (is_listed(existing@, file_path_spec(cert, FileType::AccountPrivateKey))
            && is_listed(existing@, file_path_spec(cert, FileType::AccountPublicKey))),
{
    let file_types = [FileType::AccountPrivateKey, FileType::AccountPublicKey];
    let r = check_files(cert, &file_types, existing);
    assert(file_types@[0] == FileType::AccountPrivateKey);
    assert(file_types@[1] == FileType::AccountPublicKey);
    r
}

/// The certificate's private key and chain are both regular files;
/// `existing` lists the paths that are.
pub fn certificate_files_exists(cert: &Certificate, existing: &[String]) -> (r: bool)
    ensures
        r == (is_listed(existing@, file_path_spec(cert, FileType::PrivateKey)) && is_listed(
            existing@,
            file_path_spec(cert, FileType::Certificate),
        )),
{
    let file_types = [FileType::PrivateKey, FileType::Certificate];
    let r = check_files(cert, &file_types, existing);
    assert(file_types@[0] == FileType::PrivateKey);
    assert(file_types@[1] == FileType::Certificate);
    r
}

/// A private key written with `set_keypair` lands, with its bytes unchanged,
/// at the path that reading the private key resolves to.
pub proof fn lemma_keypair_round_trip(
    cert: &Certificate,
    run: WriteRun,
    private_pem: Seq<u8>,
    path_is_file: bool,
)
    requires
        run.prepared_for(cert, FileType::PrivateKey, private_pem, path_is_file),
    ensures
        run.hook_data.file_path@ == file_path_spec(cert, FileType::PrivateKey),
        run.data@ == private_pem,
{
}

/// A certificate is created with the configured certificate mode and given
/// the configured owner and group; account key files get the fixed account
/// mode and are never given another owner.
pub proof fn lemma_modes_and_owners(
    cert: &Certificate,
    run: WriteRun,
    file_type: FileType,
    data: Seq<u8>,
    path_is_file: bool,
)
    requires
        run.prepared_for(cert, file_type, data, path_is_file),
    ensures
        file_type == FileType::Certificate ==> run.mode == cert.cert_file_mode && run.owner
            == Some((cert.cert_file_owner, cert.cert_file_group)),
        file_type == FileType::PrivateKey ==> run.mode == cert.pk_file_mode && run.owner == Some(
            (cert.pk_file_owner, cert.pk_file_group),
        ),
        file_type.is_account_key() ==> run.mode == crate::DEFAULT_ACCOUNT_FILE_MODE
            && run.owner is None,
{
}

} // verus!
