use vstd::prelude::*;
use vstd::string::StringExecFns;

verus! {

/// The four mutually exclusive kinds of failure.
#[derive(PartialEq, Eq, Structural, Clone, Copy, Debug)]
pub enum ErrorKind {
    /// Key setup, randomness or the device identity was unavailable; nothing was written.
    EncryptionFailed,
    /// An authentication tag did not verify: wrong key or altered bytes.
    DecryptionFailed,
    /// The platform secret store refused the operation.
    KeyringError,
    /// A payload was malformed: too short, not base64, or not UTF-8.
    InvalidData,
}

impl ErrorKind {
    /// The words that open a description of a failure of this kind.
    pub open spec fn label(self) -> Seq<char> {
        match self {
            ErrorKind::EncryptionFailed => "加密失败: "@,
            ErrorKind::DecryptionFailed => "解密失败: "@,
            ErrorKind::KeyringError => "密钥环错误: "@,
            ErrorKind::InvalidData => "无效数据: "@,
        }
    }
}

/// A failure of the protection pipeline, with a human-readable detail.
#[derive(Debug)]
pub enum CryptoError {
    EncryptionFailed(String),
    DecryptionFailed(String),
    KeyringError(String),
    InvalidData(String),
}

impl CryptoError {
    pub open spec fn spec_kind(&self) -> ErrorKind {
        match self {
            CryptoError::EncryptionFailed(_) => ErrorKind::EncryptionFailed,
            CryptoError::DecryptionFailed(_) => ErrorKind::DecryptionFailed,
            CryptoError::KeyringError(_) => ErrorKind::KeyringError,
            CryptoError::InvalidData(_) => ErrorKind::InvalidData,
        }
    }

    pub open spec fn detail(&self) -> String {
        match self {
            CryptoError::EncryptionFailed(m) => *m,
            CryptoError::DecryptionFailed(m) => *m,
            CryptoError::KeyringError(m) => *m,
            CryptoError::InvalidData(m) => *m,
        }
    }

    /// The kind of this failure.
    #[verifier::when_used_as_spec(spec_kind)]
    pub fn kind(&self) -> (r: ErrorKind)
        ensures
            r == self.spec_kind(),
    {
        match self {
            CryptoError::EncryptionFailed(_) => ErrorKind::EncryptionFailed,
            CryptoError::DecryptionFailed(_) => ErrorKind::DecryptionFailed,
            CryptoError::KeyringError(_) => ErrorKind::KeyringError,
            CryptoError::InvalidData(_) => ErrorKind::InvalidData,
        }
    }

    /// A one-line description: the kind followed by the detail.
    pub fn message(&self) -> (r: String)
        ensures
            r@ == self.spec_kind().label() + self.detail()@,
    {
        let (prefix, detail): (&str, &String) = match self {
            CryptoError::EncryptionFailed(m) => ("加密失败: ", m),
            CryptoError::DecryptionFailed(m) => ("解密失败: ", m),
            CryptoError::KeyringError(m) => ("密钥环错误: ", m),
            CryptoError::InvalidData(m) => ("无效数据: ", m),
        };
        prefix.to_string().concat(detail.as_str())
    }
}

/// A failure of the given kind with the given detail.
pub fn error_of(kind: ErrorKind, detail: &str) -> (r: CryptoError)
    ensures
        r.spec_kind() == kind,
        r.detail()@ == detail@,
{
    let d = detail.to_string();
    match kind {
        ErrorKind::EncryptionFailed => CryptoError::EncryptionFailed(d),
        ErrorKind::DecryptionFailed => CryptoError::DecryptionFailed(d),
        ErrorKind::KeyringError => CryptoError::KeyringError(d),
        ErrorKind::InvalidData => CryptoError::InvalidData(d),
    }
}

/// A failure of the given kind whose detail is `context` followed by `cause`.
pub fn error_with_cause(kind: ErrorKind, context: &str, cause: &str) -> (r: CryptoError)
    ensures
        r.spec_kind() == kind,
        r.detail()@ == context@ + cause@,
{
    let detail = context.to_string().concat(cause);
    error_of(kind, detail.as_str())
}

} // verus!
