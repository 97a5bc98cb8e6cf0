//! The outcomes the service reports, and their numeric codes.

use vstd::prelude::*;

verus! {

/// Returned when a number is not the code of any failure.
#[derive(Debug, PartialEq, Eq, Structural)]
pub struct InvalidErrorCode;

/// Every outcome the service can report for a call, success included.
///
/// The wording of the variants follows the service's own documentation,
/// which does not always say when a code is returned.
#[derive(Copy, Clone, Debug, PartialEq, Eq, Structural)]
pub enum SteamResult {
    /// Returned when the call succeeded
    OK,
    /// Returned if the steamworks API fails to initialize.
    InitFailed,
    /// Returned if the steamworks API fails to perform an action
    Generic,
    /// Returned when steam fails performing a network request
    NoConnection,
    /// Return when the password or ticked used is invalid
    InvalidPassword,
    /// Returned when the user is already logged in at another location
    LoggedInElsewhere,
    /// Returned when the protocol version is incorrect
    InvalidProtocolVersion,
    /// Returned when a passed parameter is invalid
    InvalidParameter,
    /// Returned when a file is not found
    FileNotFound,
    /// Returned when the called method was busy
    ///
    /// No action was performed
    Busy,
    /// Returned when the called object was in an
    /// invalid state
    InvalidState,
    /// Returned when the name is invalid
    InvalidName,
    /// Returned when the email is invalid
    InvalidEmail,
    /// Returned when the name is not unique
    DuplicateName,
    /// Returned when access is denied
    AccessDenied,
    /// Returned when the operation timed out
    Timeout,
    /// Returned when the user is VAC2 banned
    Banned,
    /// Returned when the account is not found
    AccountNotFound,
    /// Returned when the passed steam id is invalid
    InvalidSteamID,
    /// Returned when the requested service in unavailable
    ServiceUnavailable,
    /// Returned when the user is not logged on
    NotLoggedOn,
    /// Returned when the request is pending (e.g. in progress/waiting)
    Pending,
    /// Returned when encryption or decryption fails
    EncryptionFailure,
    /// Returned when you have insufficient privilege to perform
    /// the action
    InsufficientPrivilege,
    /// Returned when you have hit the API limits
    LimitExceeded,
    /// Returned when the user's access has been revoked (e.g. revoked
    /// guess passes)
    Revoked,
    /// Returned when the user's access has expired
    Expired,
    /// Returned when the licence/guest pass has already been redeemed
    AlreadyRedeemed,
    /// Returned when the requested action is a duplicate and has
    /// already occurred.
    ///
    /// The action will be ignored
    DuplicateRequest,
    /// Returned when all the games in the guest pass are already
    /// owned by the user
    AlreadyOwned,
    /// Returned when the ip address is not found
    IPNotFound,
    /// Returned when the change failed to write to the data store
    PersistFailed,
    /// Returned when the operation failed to acquire the access lock
    LockingFailed,
    /// Undocumented
    LogonSessionReplaced,
    /// Undocumented
    ConnectFailed,
    /// Undocumented
    HandshakeFailed,
    /// Undocumented
    IOFailure,
    /// Undocumented
    RemoteDisconnect,
    /// Returned when the requested shopping cart wasn't found
    ShoppingCartNotFound,
    /// Returned when the user blocks an action
    Blocked,
    /// Returned when the target user is ignoring the sender
    Ignored,
    /// Returned when nothing matching the request is found
    NoMatch,
    /// Undocumented
    AccountDisabled,
    /// Returned when the service isn't accepting content changes at
    /// this moment
    ServiceReadOnly,
    /// Returned when the account doesn't have value so the feature
    /// isn't available
    AccountNotFeatured,
    /// Allowed to take this action but only because the requester is
    /// an admin
    AdministratorOK,
    /// Returned when there is a version mismatch in content transmitted
    /// within the steam protocol
    ContentVersion,
    /// Returned when the current CM cannot service the user's request.
    ///
    /// The user should try another.
    TryAnotherCM,
    /// Returned when the user is already logged in elsewhere and the
    /// cached credential login failed.
    PasswordRequiredToKickSession,
    /// Returned when the user is already logged in elsewhere, you
    /// must wait before trying again
    AlreadyLoggedInElsewhere,
    /// Returned when a long running operation (e.g. download) is
    /// suspended/paused.
    Suspended,
    /// Returned when an operation is cancelled
    Cancelled,
    /// Returned when an operation is cancelled due to data corruption
    DataCorruption,
    /// Returned when an operation is cancelled due to running out of disk
    /// space
    DiskFull,
    /// Returned when a remote call or an IPC call failed
    RemoteCallFailed,
    /// Returned when a password could not be verified as its unset
    /// server side
    PasswordUnset,
    /// Returned when the external account is not linked to a steam
    /// account
    ExternalAccountUnlinked,
    /// Returned when the PSN ticket is invalid
    PSNTicketInvalid,
    /// Returned when the external account is already linked to a steam
    /// account
    ExternalAccountAlreadyLinked,
    /// Returned when sync cannot resume due to a file conflict
    RemoteFileConflict,
    /// Returned when the requested new password is not legal
    IllegalPassword,
    /// Returned when the new value is the same as the previous value
    SameAsPreviousValue,
    /// Returned when the account logon is denied to 2nd factor authentication
    /// failure
    AccountLogonDenied,
    /// Returned when the requested new password is the same as the
    /// previous password
    CannotUseOldPassword,
    /// Returned when logging in is denied due to an invalid auth code
    InvalidLoginAuthCode,
    /// Returned when logging in fails due to no email being set for 2nd
    /// factor authentication
    AccountLogonDeniedNoMail,
    /// Undocumented
    HardwareNotCapableOfIPT,
    /// Undocumented
    IPTInitError,
    /// Returned when a operation fails due to parental control restrictions
    /// for a user
    ParentalControlRestricted,
    /// Returned when a facebook query returns an error
    FacebookQueryError,
    /// Returned when account login is denied due to an expired auth code
    ExpiredLoginAuthCode,
    /// Undocumented
    IPLoginRestrictionFailed,
    /// Undocumented
    AccountLockedDown,
    /// Undocumented
    AccountLogonDeniedVerifiedEmailRequired,
    /// Undocumented
    NoMatchingURL,
    /// Returned when something fails to parse/has a missing field
    BadResponse,
    /// Returned when a user cannot complete the action until they
    /// re-enter their password
    RequirePasswordReEntry,
    /// Returned when an entered value is outside the acceptable range
    ValueOutOfRange,
    /// Returned when an error happens that the steamworks API didn't
    /// expect to happen
    UnexpectedError,
    /// Returned when the requested service is disabled
    Disabled,
    /// Returned when the set of files submitted to the CEG server
    /// are not valid
    InvalidCEGSubmission,
    /// Returned when the device being used is not allowed to perform
    /// this action
    RestrictedDevice,
    /// Returned when an action is prevented due to region restrictions
    RegionLocked,
    /// Returned when an action failed due to a temporary rate limit
    RateLimitExceeded,
    /// Returned when a account needs to use a two-factor code to login
    AccountLoginDeniedNeedTwoFactor,
    /// Returned when the item attempting to be accessed has been deleted
    ItemDeleted,
    /// Returned when the account login failed and you should throttle the
    /// response to the possible attacker
    AccountLoginDeniedThrottle,
    /// Returned when the two factor code provided mismatched the expected
    /// one
    TwoFactorCodeMismatch,
    /// Returned when the two factor activation code mismatched the expected
    /// one
    TwoFactorActivationCodeMismatch,
    /// Returned when the account has been associated with multiple partners
    AccountAssociatedToMultiplePartners,
    /// Returned when the data wasn't modified
    NotModified,
    /// Returned when the account doesn't have a mobile device associated with
    /// it
    NoMobileDevice,
    /// Returned when the current time is out of range or tolerance
    TimeNotSynced,
    /// Returned when the sms code failed to validate
    SmsCodeFailed,
    /// Returned when too many accounts are accessing the requested
    /// resource
    AccountLimitExceeded,
    /// Returned when there have been too many changes to the account
    AccountActivityLimitExceeded,
    /// Returned when there have been too many changes to the phone
    PhoneActivityLimitExceeded,
    /// Returned when the refund can not be sent to the payment method
    /// and the steam wallet must be used
    RefundToWallet,
    /// Returned when steam failed to send an email
    EmailSendFailure,
    /// Returned when an action cannot be performed until the payment
    /// has settled
    NotSettled,
    /// Returned when the user needs to provide a valid captcha
    NeedCaptcha,
    /// Returned when the game server login token owned by the token's owner
    /// been banned
    GSLTDenied,
    /// Returned when the game server owner has been denied for other reasons
    /// (account lock, community ban, vac ban, missing phone)
    GSOwnerDenied,
    /// Returned when the type of item attempted to be acted on is invalid
    InvalidItemType,
    /// Returned when the IP address has been banned for taking this action
    IPBanned,
    /// Returned when the game server login token has expired
    ///
    /// It can be reset for use
    GSLTExpired,
    /// Returned when the user does not have the wallet funds to complete
    /// the action
    InsufficientFunds,
    /// Returned when there are too many of the requested action pending
    /// already
    TooManyPending,
    /// Returned when there is no site licenses found
    NoSiteLicensesFound,
    /// Returned when WG could not send a response because it exceeded the
    /// max network send size
    WGNetworkSendExceeded,
}

impl SteamResult {
    /// The number the service uses for this outcome. `InitFailed` is raised
    /// on this side of the boundary and has no number.
    pub open spec fn code(self) -> Option<int> {
        match self {
            SteamResult::OK => Some(1int),
            SteamResult::InitFailed => None,
            SteamResult::Generic => Some(2int),
            SteamResult::NoConnection => Some(3int),
            SteamResult::InvalidPassword => Some(5int),
            SteamResult::LoggedInElsewhere => Some(6int),
            SteamResult::InvalidProtocolVersion => Some(7int),
            SteamResult::InvalidParameter => Some(8int),
            SteamResult::FileNotFound => Some(9int),
            SteamResult::Busy => Some(10int),
            SteamResult::InvalidState => Some(11int),
            SteamResult::InvalidName => Some(12int),
            SteamResult::InvalidEmail => Some(13int),
            SteamResult::DuplicateName => Some(14int),
            SteamResult::AccessDenied => Some(15int),
            SteamResult::Timeout => Some(16int),
            SteamResult::Banned => Some(17int),
            SteamResult::AccountNotFound => Some(18int),
            SteamResult::InvalidSteamID => Some(19int),
            SteamResult::ServiceUnavailable => Some(20int),
            SteamResult::NotLoggedOn => Some(21int),
            SteamResult::Pending => Some(22int),
            SteamResult::EncryptionFailure => Some(23int),
            SteamResult::InsufficientPrivilege => Some(24int),
            SteamResult::LimitExceeded => Some(25int),
            SteamResult::Revoked => Some(26int),
            SteamResult::Expired => Some(27int),
            SteamResult::AlreadyRedeemed => Some(28int),
            SteamResult::DuplicateRequest => Some(29int),
            SteamResult::AlreadyOwned => Some(30int),
            SteamResult::IPNotFound => Some(31int),
            SteamResult::PersistFailed => Some(32int),
            SteamResult::LockingFailed => Some(33int),
            SteamResult::LogonSessionReplaced => Some(34int),
            SteamResult::ConnectFailed => Some(35int),
            SteamResult::HandshakeFailed => Some(36int),
            SteamResult::IOFailure => Some(37int),
            SteamResult::RemoteDisconnect => Some(38int),
            SteamResult::ShoppingCartNotFound => Some(39int),
            SteamResult::Blocked => Some(40int),
            SteamResult::Ignored => Some(41int),
            SteamResult::NoMatch => Some(42int),
            SteamResult::AccountDisabled => Some(43int),
            SteamResult::ServiceReadOnly => Some(44int),
            SteamResult::AccountNotFeatured => Some(45int),
            SteamResult::AdministratorOK => Some(46int),
            SteamResult::ContentVersion => Some(47int),
            SteamResult::TryAnotherCM => Some(48int),
            SteamResult::PasswordRequiredToKickSession => Some(49int),
            SteamResult::AlreadyLoggedInElsewhere => Some(50int),
            SteamResult::Suspended => Some(51int),
            SteamResult::Cancelled => Some(52int),
            SteamResult::DataCorruption => Some(53int),
            SteamResult::DiskFull => Some(54int),
            SteamResult::RemoteCallFailed => Some(55int),
            SteamResult::PasswordUnset => Some(56int),
            SteamResult::ExternalAccountUnlinked => Some(57int),
            SteamResult::PSNTicketInvalid => Some(58int),
            SteamResult::ExternalAccountAlreadyLinked => Some(59int),
            SteamResult::RemoteFileConflict => Some(60int),
            SteamResult::IllegalPassword => Some(61int),
            SteamResult::SameAsPreviousValue => Some(62int),
            SteamResult::AccountLogonDenied => Some(63int),
            SteamResult::CannotUseOldPassword => Some(64int),
            SteamResult::InvalidLoginAuthCode => Some(65int),
            SteamResult::AccountLogonDeniedNoMail => Some(66int),
            SteamResult::HardwareNotCapableOfIPT => Some(67int),
            SteamResult::IPTInitError => Some(68int),
            SteamResult::ParentalControlRestricted => Some(69int),
            SteamResult::FacebookQueryError => Some(70int),
            SteamResult::ExpiredLoginAuthCode => Some(71int),
            SteamResult::IPLoginRestrictionFailed => Some(72int),
            SteamResult::AccountLockedDown => Some(73int),
            SteamResult::AccountLogonDeniedVerifiedEmailRequired => Some(74int),
            SteamResult::NoMatchingURL => Some(75int),
            SteamResult::BadResponse => Some(76int),
            SteamResult::RequirePasswordReEntry => Some(77int),
            SteamResult::ValueOutOfRange => Some(78int),
            SteamResult::UnexpectedError => Some(79int),
            SteamResult::Disabled => Some(80int),
            SteamResult::InvalidCEGSubmission => Some(81int),
            SteamResult::RestrictedDevice => Some(82int),
            SteamResult::RegionLocked => Some(83int),
            SteamResult::RateLimitExceeded => Some(84int),
            SteamResult::AccountLoginDeniedNeedTwoFactor => Some(85int),
            SteamResult::ItemDeleted => Some(86int),
            SteamResult::AccountLoginDeniedThrottle => Some(87int),
            SteamResult::TwoFactorCodeMismatch => Some(88int),
            SteamResult::TwoFactorActivationCodeMismatch => Some(89int),
            SteamResult::AccountAssociatedToMultiplePartners => Some(90int),
            SteamResult::NotModified => Some(91int),
            SteamResult::NoMobileDevice => Some(92int),
            SteamResult::TimeNotSynced => Some(93int),
            SteamResult::SmsCodeFailed => Some(94int),
            SteamResult::AccountLimitExceeded => Some(95int),
            SteamResult::AccountActivityLimitExceeded => Some(96int),
            SteamResult::PhoneActivityLimitExceeded => Some(97int),
            SteamResult::RefundToWallet => Some(98int),
            SteamResult::EmailSendFailure => Some(99int),
            SteamResult::NotSettled => Some(100int),
            SteamResult::NeedCaptcha => Some(101int),
            SteamResult::GSLTDenied => Some(102int),
            SteamResult::GSOwnerDenied => Some(103int),
            SteamResult::InvalidItemType => Some(104int),
            SteamResult::IPBanned => Some(105int),
            SteamResult::GSLTExpired => Some(106int),
            SteamResult::InsufficientFunds => Some(107int),
            SteamResult::TooManyPending => Some(108int),
            SteamResult::NoSiteLicensesFound => Some(109int),
            SteamResult::WGNetworkSendExceeded => Some(110int),
        }
    }

    /// The numbers that stand for an outcome: 1 to 110, without 4.
    pub open spec fn has_code(code: int) -> bool {
        1 <= code <= 110 && code != 4
    }

    /// The numbers that stand for a failure: every code but that of `OK`.
    pub open spec fn is_failure_code(code: int) -> bool {
        Self::has_code(code) && code != 1
    }

    /// The outcome that carries `code`; meaningful where `has_code(code)`.
    pub open spec fn of_code(code: int) -> Self {
        choose|v: Self| v.code() == Some(code)
    }

    /// No two outcomes share a number.
    pub proof fn lemma_code_injective(a: Self, b: Self)
        requires
            a.code() is Some,
            a.code() == b.code(),
        ensures
            a == b,
    {
    }

    /// `of_code` undoes `code`.
    pub proof fn lemma_of_code(v: Self)
        requires
            v.code() is Some,
        ensures
            Self::has_code(v.code().unwrap()),
            Self::of_code(v.code().unwrap()) == v,
    {
        Self::lemma_code_injective(v, Self::of_code(v.code().unwrap()));
    }

    /// Finds the outcome for a number reported by the service.
    pub fn lookup(code: i64) -> (found: Option<Self>)
        ensures
            found is Some <==> Self::has_code(code as int),
            found matches Some(v) ==> v.code() == Some(code as int) && v == Self::of_code(code as int),
    {
        let found = match code {
            1 => Some(SteamResult::OK),
            2 => Some(SteamResult::Generic),
            3 => Some(SteamResult::NoConnection),
            5 => Some(SteamResult::InvalidPassword),
            6 => Some(SteamResult::LoggedInElsewhere),
            7 => Some(SteamResult::InvalidProtocolVersion),
            8 => Some(SteamResult::InvalidParameter),
            9 => Some(SteamResult::FileNotFound),
            10 => Some(SteamResult::Busy),
            11 => Some(SteamResult::InvalidState),
            12 => Some(SteamResult::InvalidName),
            13 => Some(SteamResult::InvalidEmail),
            14 => Some(SteamResult::DuplicateName),
            15 => Some(SteamResult::AccessDenied),
            16 => Some(SteamResult::Timeout),
            17 => Some(SteamResult::Banned),
            18 => Some(SteamResult::AccountNotFound),
            19 => Some(SteamResult::InvalidSteamID),
            20 => Some(SteamResult::ServiceUnavailable),
            21 => Some(SteamResult::NotLoggedOn),
            22 => Some(SteamResult::Pending),
            23 => Some(SteamResult::EncryptionFailure),
            24 => Some(SteamResult::InsufficientPrivilege),
            25 => Some(SteamResult::LimitExceeded),
            26 => Some(SteamResult::Revoked),
            27 => Some(SteamResult::Expired),
            28 => Some(SteamResult::AlreadyRedeemed),
            29 => Some(SteamResult::DuplicateRequest),
            30 => Some(SteamResult::AlreadyOwned),
            31 => Some(SteamResult::IPNotFound),
            32 => Some(SteamResult::PersistFailed),
            33 => Some(SteamResult::LockingFailed),
            34 => Some(SteamResult::LogonSessionReplaced),
            35 => Some(SteamResult::ConnectFailed),
            36 => Some(SteamResult::HandshakeFailed),
            37 => Some(SteamResult::IOFailure),
            38 => Some(SteamResult::RemoteDisconnect),
            39 => Some(SteamResult::ShoppingCartNotFound),
            40 => Some(SteamResult::Blocked),
            41 => Some(SteamResult::Ignored),
            42 => Some(SteamResult::NoMatch),
            43 => Some(SteamResult::AccountDisabled),
            44 => Some(SteamResult::ServiceReadOnly),
            45 => Some(SteamResult::AccountNotFeatured),
            46 => Some(SteamResult::AdministratorOK),
            47 => Some(SteamResult::ContentVersion),
            48 => Some(SteamResult::TryAnotherCM),
            49 => Some(SteamResult::PasswordRequiredToKickSession),
            50 => Some(SteamResult::AlreadyLoggedInElsewhere),
            51 => Some(SteamResult::Suspended),
            52 => Some(SteamResult::Cancelled),
            53 => Some(SteamResult::DataCorruption),
            54 => Some(SteamResult::DiskFull),
            55 => Some(SteamResult::RemoteCallFailed),
            56 => Some(SteamResult::PasswordUnset),
            57 => Some(SteamResult::ExternalAccountUnlinked),
            58 => Some(SteamResult::PSNTicketInvalid),
            59 => Some(SteamResult::ExternalAccountAlreadyLinked),
            60 => Some(SteamResult::RemoteFileConflict),
            61 => Some(SteamResult::IllegalPassword),
            62 => Some(SteamResult::SameAsPreviousValue),
            63 => Some(SteamResult::AccountLogonDenied),
            64 => Some(SteamResult::CannotUseOldPassword),
            65 => Some(SteamResult::InvalidLoginAuthCode),
            66 => Some(SteamResult::AccountLogonDeniedNoMail),
            67 => Some(SteamResult::HardwareNotCapableOfIPT),
            68 => Some(SteamResult::IPTInitError),
            69 => Some(SteamResult::ParentalControlRestricted),
            70 => Some(SteamResult::FacebookQueryError),
            71 => Some(SteamResult::ExpiredLoginAuthCode),
            72 => Some(SteamResult::IPLoginRestrictionFailed),
            73 => Some(SteamResult::AccountLockedDown),
            74 => Some(SteamResult::AccountLogonDeniedVerifiedEmailRequired),
            75 => Some(SteamResult::NoMatchingURL),
            76 => Some(SteamResult::BadResponse),
            77 => Some(SteamResult::RequirePasswordReEntry),
            78 => Some(SteamResult::ValueOutOfRange),
            79 => Some(SteamResult::UnexpectedError),
            80 => Some(SteamResult::Disabled),
            81 => Some(SteamResult::InvalidCEGSubmission),
            82 => Some(SteamResult::RestrictedDevice),
            83 => Some(SteamResult::RegionLocked),
            84 => Some(SteamResult::RateLimitExceeded),
            85 => Some(SteamResult::AccountLoginDeniedNeedTwoFactor),
            86 => Some(SteamResult::ItemDeleted),
            87 => Some(SteamResult::AccountLoginDeniedThrottle),
            88 => Some(SteamResult::TwoFactorCodeMismatch),
            89 => Some(SteamResult::TwoFactorActivationCodeMismatch),
            90 => Some(SteamResult::AccountAssociatedToMultiplePartners),
            91 => Some(SteamResult::NotModified),
            92 => Some(SteamResult::NoMobileDevice),
            93 => Some(SteamResult::TimeNotSynced),
            94 => Some(SteamResult::SmsCodeFailed),
            95 => Some(SteamResult::AccountLimitExceeded),
            96 => Some(SteamResult::AccountActivityLimitExceeded),
            97 => Some(SteamResult::PhoneActivityLimitExceeded),
            98 => Some(SteamResult::RefundToWallet),
            99 => Some(SteamResult::EmailSendFailure),
            100 => Some(SteamResult::NotSettled),
            101 => Some(SteamResult::NeedCaptcha),
            102 => Some(SteamResult::GSLTDenied),
            103 => Some(SteamResult::GSOwnerDenied),
            104 => Some(SteamResult::InvalidItemType),
            105 => Some(SteamResult::IPBanned),
            106 => Some(SteamResult::GSLTExpired),
            107 => Some(SteamResult::InsufficientFunds),
            108 => Some(SteamResult::TooManyPending),
            109 => Some(SteamResult::NoSiteLicensesFound),
            110 => Some(SteamResult::WGNetworkSendExceeded),
            _ => None,
        };
        proof {
            if let Some(v) = found {
                Self::lemma_of_code(v);
            }
        }
        found
    }

    /// Converts a number that is known to stand for an outcome.
    pub fn from_code(code: u32) -> (outcome: Self)
        requires
            Self::has_code(code as int),
        ensures
            outcome.code() == Some(code as int),
            outcome == Self::of_code(code as int),
    {
        match Self::lookup(code as i64) {
            Some(v) => v,
            None => SteamResult::Generic,
        }
    }
}

impl TryFrom<i64> for SteamResult {
    type Error = InvalidErrorCode;

    fn try_from(r: i64) -> (converted: Result<Self, InvalidErrorCode>) {
        if r == 1 {
            return Err(InvalidErrorCode);
        }
        match Self::lookup(r) {
            Some(v) => Ok(v),
            None => Err(InvalidErrorCode),
        }
    }
}

impl vstd::std_specs::convert::TryFromSpecImpl<i64> for SteamResult {
    open spec fn obeys_try_from_spec() -> bool {
        true
    }

    open spec fn try_from_spec(r: i64) -> Result<Self, InvalidErrorCode> {
        if Self::is_failure_code(r as int) {
            Ok(Self::of_code(r as int))
        } else {
            Err(InvalidErrorCode)
        }
    }
}

} // verus!
