//! Where the daemon keeps its socket, its model and its worker runtime.
//!
//! Paths are byte strings, as on Unix; the caller reads the environment and
//! hands the values over.
use vstd::prelude::*;
use vstd::utf8::{decode_utf8, encode_utf8, valid_utf8};

verus! {

/// Directory name of the speech model under the models directory.
pub const MODEL_DIRECTORY_NAME: &'static str = "parakeet-tdt-0.6b-v3-int8";

/// Name of the daemon's socket under the runtime directory.
pub const SOCKET_FILE_NAME: &'static str = "impulse-voice.sock";

pub open spec fn slash() -> u8 {
    0x2fu8
}

/// `Path::join` on Unix: an absolute `part` replaces `base`; otherwise a
/// separator is added when `base` is not empty and does not end in one.
pub open spec fn path_join(base: Seq<u8>, part: Seq<u8>) -> Seq<u8> {
    if part.len() > 0 && part[0] == slash() {
        part
    } else if base.len() > 0 && base.last() != slash() {
        base + seq![slash()] + part
    } else {
        base + part
    }
}

pub open spec fn bytes_of(s: Seq<char>) -> Seq<u8> {
    encode_utf8(s)
}

/// What `String::from_utf8_lossy` makes of a byte string.
pub uninterp spec fn utf8_lossy(bytes: Seq<u8>) -> Seq<char>;

/// `String::from_utf8_lossy`: the text of the bytes, with each invalid
/// sequence replaced by U+FFFD. Valid UTF-8 decodes unchanged; of invalid
/// input the contract names the result and says no more.
#[verifier::external_body]
pub(crate) fn decode_utf8_lossy(bytes: &[u8]) -> (s: String)
    ensures
        s@ == utf8_lossy(bytes@),
        valid_utf8(bytes@) ==> s@ == decode_utf8(bytes@),
{
    String::from_utf8_lossy(bytes).into_owned()
}

pub fn copy_bytes(b: &[u8]) -> (v: Vec<u8>)
    ensures
        v@ == b@,
{
    let mut v: Vec<u8> = Vec::new();
    let mut i: usize = 0;
    while i < b.len()
        invariant
            i <= b@.len(),
            v@ == b@.take(i as int),
        decreases b@.len() - i,
    {
        v.push(b[i]);
        assert(b@.take(i + 1) =~= b@.take(i as int).push(b@[i as int]));
        i = i + 1;
    }
    assert(b@.take(b@.len() as int) =~= b@);
    v
}

fn append_bytes(v: &mut Vec<u8>, b: &[u8])
    ensures
        final(v)@ == old(v)@ + b@,
{
    let mut i: usize = 0;
    while i < b.len()
        invariant
            i <= b@.len(),
            v@ == old(v)@ + b@.take(i as int),
        decreases b@.len() - i,
    {
        v.push(b[i]);
        assert(b@.take(i + 1) =~= b@.take(i as int).push(b@[i as int]));
        i = i + 1;
    }
    assert(b@.take(b@.len() as int) =~= b@);
}

/// Joins a relative or absolute part onto a path.
pub fn join_path(base: &[u8], part: &[u8]) -> (r: Vec<u8>)
    ensures
        r@ == path_join(base@, part@),
{
    if part.len() > 0 && part[0] == 0x2fu8 {
        return copy_bytes(part);
    }
    let mut r = copy_bytes(base);
    if base.len() > 0 && base[base.len() - 1] != 0x2fu8 {
        r.push(0x2fu8);
    }
    append_bytes(&mut r, part);
    r
}

/// Why a default path could not be found.
#[derive(Clone, Copy, Debug, PartialEq, Eq, Structural)]
pub enum PathError {
    HomeUndefined,
    RuntimeDirUndefined,
}

impl PathError {
    pub open spec fn spec_message(self) -> Seq<char> {
        match self {
            PathError::HomeUndefined => "HOME is not defined"@,
            PathError::RuntimeDirUndefined => "XDG_RUNTIME_DIR is not defined"@,
        }
    }

    pub fn message(&self) -> (s: String)
        ensures
            s@ == self.spec_message(),
    {
        match self {
            PathError::HomeUndefined => String::from_str("HOME is not defined"),
            PathError::RuntimeDirUndefined => String::from_str("XDG_RUNTIME_DIR is not defined"),
        }
    }
}

pub open spec fn spec_data_home(xdg_data_home: Option<Seq<u8>>, home: Option<Seq<u8>>) -> Result<
    Seq<u8>,
    PathError,
> {
    match xdg_data_home {
        Some(p) => Ok(p),
        None => match home {
            Some(h) => Ok(path_join(h, bytes_of(".local/share"@))),
            None => Err(PathError::HomeUndefined),
        },
    }
}

pub open spec fn opt_bytes(o: Option<Vec<u8>>) -> Option<Seq<u8>> {
    match o {
        Some(v) => Some(v@),
        None => None,
    }
}

pub open spec fn result_bytes(r: Result<Vec<u8>, PathError>) -> Result<Seq<u8>, PathError> {
    match r {
        Ok(v) => Ok(v@),
        Err(e) => Err(e),
    }
}

/// The user's data directory: `$XDG_DATA_HOME` when it is set, else
/// `$HOME/.local/share`.
pub fn data_home(xdg_data_home: Option<Vec<u8>>, home: Option<Vec<u8>>) -> (r: Result<
    Vec<u8>,
    PathError,
>)
    ensures
        result_bytes(r) == spec_data_home(opt_bytes(xdg_data_home), opt_bytes(home)),
{
    match xdg_data_home {
        Some(p) => Ok(p),
        None => match home {
            Some(h) => Ok(join_path(h.as_slice(), ".local/share".as_bytes())),
            None => Err(PathError::HomeUndefined),
        },
    }
}

pub open spec fn spec_model_path(data_home: Seq<u8>) -> Seq<u8> {
    path_join(
        path_join(data_home, bytes_of("impulse-voice/models"@)),
        bytes_of(MODEL_DIRECTORY_NAME@),
    )
}

/// Where the speech model is installed by default:
/// `<data home>/impulse-voice/models/parakeet-tdt-0.6b-v3-int8`.
pub fn default_model_path(xdg_data_home: Option<Vec<u8>>, home: Option<Vec<u8>>) -> (r: Result<
    Vec<u8>,
    PathError,
>)
    ensures
        result_bytes(r) == (match spec_data_home(opt_bytes(xdg_data_home), opt_bytes(home)) {
            Ok(d) => Ok(spec_model_path(d)),
            Err(e) => Err(e),
        }),
{
    let base = data_home(xdg_data_home, home)?;
    let models = join_path(base.as_slice(), "impulse-voice/models".as_bytes());
    Ok(join_path(models.as_slice(), MODEL_DIRECTORY_NAME.as_bytes()))
}

/// The daemon's socket: `$XDG_RUNTIME_DIR/impulse-voice.sock`.
pub fn default_socket_path(runtime_dir: Option<Vec<u8>>) -> (r: Result<Vec<u8>, PathError>)
    ensures
        result_bytes(r) == (match opt_bytes(runtime_dir) {
            Some(d) => Ok(path_join(d, bytes_of(SOCKET_FILE_NAME@))),
            None => Err(PathError::RuntimeDirUndefined),
        }),
{
    match runtime_dir {
        Some(d) => Ok(join_path(d.as_slice(), SOCKET_FILE_NAME.as_bytes())),
        None => Err(PathError::RuntimeDirUndefined),
    }
}

/// The Python interpreter of the speech worker: `IMPULSE_VOICE_PYTHON` when
/// set, else the one in the worker's virtual environment under the data home.
/// The data home is resolved first, so an unresolvable one is an error even
/// when the interpreter is given.
pub fn worker_python_path(
    python: Option<Vec<u8>>,
    xdg_data_home: Option<Vec<u8>>,
    home: Option<Vec<u8>>,
) -> (r: Result<Vec<u8>, PathError>)
    ensures
        result_bytes(r) == (match spec_data_home(opt_bytes(xdg_data_home), opt_bytes(home)) {
            Err(e) => Err(e),
            Ok(d) => match opt_bytes(python) {
                Some(p) => Ok(p),
                None => Ok(path_join(d, bytes_of("impulse-voice/photon-venv/bin/python"@))),
            },
        }),
{
    let base = data_home(xdg_data_home, home)?;
    match python {
        Some(p) => Ok(p),
        None => Ok(join_path(base.as_slice(), "impulse-voice/photon-venv/bin/python".as_bytes())),
    }
}

/// A path as text, with invalid UTF-8 replaced by U+FFFD.
pub fn display_path(path: &[u8]) -> (s: String)
    ensures
        s@ == utf8_lossy(path@),
        valid_utf8(path@) ==> s@ == decode_utf8(path@),
{
    decode_utf8_lossy(path)
}

/// Why the socket path cannot be used.
pub struct NotASocket {
    pub path: Vec<u8>,
}

impl NotASocket {
    pub fn message(&self) -> (s: String)
        ensures
            s@ == "refusing to replace non-socket path at "@ + utf8_lossy(self.path@),
    {
        let shown = display_path(self.path.as_slice());
        String::from_str("refusing to replace non-socket path at ").concat(shown.as_str())
    }
}

/// Decides how to prepare the socket path before binding: `Ok(false)` when
/// nothing is there, `Ok(true)` to remove a stale socket, and an error when
/// something other than a socket is in the way.
pub fn plan_socket_path(path: &[u8], exists: bool, is_socket: bool) -> (r: Result<
    bool,
    NotASocket,
>)
    ensures
        !exists ==> r == Ok::<bool, NotASocket>(false),
        exists && is_socket ==> r == Ok::<bool, NotASocket>(true),
        exists && !is_socket ==> (r matches Err(e) && e.path@ == path@),
{
    if !exists {
        Ok(false)
    } else if is_socket {
        Ok(true)
    } else {
        Err(NotASocket { path: copy_bytes(path) })
    }
}

} // verus!
