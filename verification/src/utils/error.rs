//! The failures the service reports, and their numeric codes.

use vstd::prelude::*;

verus! {

/// Returned when a number is not the code of any error.
#[derive(Debug, PartialEq, Eq, Structural)]
pub struct InvalidErrorCode;

/// Every way a call to the service can fail.
///
/// The wording of the variants follows the service's own documentation,
/// which does not always say when a code is returned.
#[derive(Copy, Clone, Debug, PartialEq, Eq, Structural)]
pub enum SteamError {
    /// Returned if the steamworks API fails to initialize.
    InitFailed,
    /// Returned if the steamworks API fails to perform an action
    Generic,
    /// Returned when steam fails performing a network request
    NoConnection,
    /// Return when the password or ticked used is invalid
    InvalidPassword,
    /// Returned when the user is already logged in at another location
    LoggedInElsewhere,
    /// Returned when the protocol version is incorrect
    InvalidProtocolVersion,
    /// Returned when a passed parameter is invalid
    InvalidParameter,
    /// Returned when a file is not found
    FileNotFound,
    /// Returned when the called method was busy
    ///
    /// No action was performed
    Busy,
    /// Returned when the called object was in an
    /// invalid state
    InvalidState,
    /// Returned when the name is invalid
    InvalidName,
    /// Returned when the email is invalid
    InvalidEmail,
    /// Returned when the name is not unique
    DuplicateName,
    /// Returned when access is denied
    AccessDenied,
    /// Returned when the operation timed out
    Timeout,
    /// Returned when the user is VAC2 banned
    Banned,
    /// Returned when the account is not found
    AccountNotFound,
    /// Returned when the passed steam id is invalid
    InvalidSteamID,
    /// Returned when the requested service in unavailable
    ServiceUnavailable,
    /// Returned when the user is not logged on
    NotLoggedOn,
    /// Returned when the request is pending (e.g. in progress/waiting)
    Pending,
    /// Returned when encryption or decryption fails
    EncryptionFailure,
    /// Returned when you have insufficient privilege to perform
    /// the action
    InsufficientPrivilege,
    /// Returned when you have hit the API limits
    LimitExceeded,
    /// Returned when the user's access has been revoked (e.g. revoked
    /// guess passes)
    Revoked,
    /// Returned when the user's access has expired
    Expired,
    /// Returned when the licence/guest pass has already been redeemed
    AlreadyRedeemed,
    /// Returned when the requested action is a duplicate and has
    /// already occurred.
    ///
    /// The action will be ignored
    DuplicateRequest,
    /// Returned when all the games in the guest pass are already
    /// owned by the user
    AlreadyOwned,
    /// Returned when the ip address is not found
    IPNotFound,
    /// Returned when the change failed to write to the data store
    PersistFailed,
    /// Returned when the operation failed to acquire the access lock
    LockingFailed,
    /// Undocumented
    LogonSessionReplaced,
    /// Undocumented
    ConnectFailed,
    /// Undocumented
    HandshakeFailed,
    /// Undocumented
    IOFailure,
    /// Undocumented
    RemoteDisconnect,
    /// Returned when the requested shopping cart wasn't found
    ShoppingCartNotFound,
    /// Returned when the user blocks an action
    Blocked,
    /// Returned when the target user is ignoring the sender
    Ignored,
    /// Returned when nothing matching the request is found
    NoMatch,
    /// Undocumented
    AccountDisabled,
    /// Returned when the service isn't accepting content changes at
    /// this moment
    ServiceReadOnly,
    /// Returned when the account doesn't have value so the feature
    /// isn't available
    AccountNotFeatured,
    /// Allowed to take this action but only because the requester is
    /// an admin
    AdministratorOK,
    /// Returned when there is a version mismatch in content transmitted
    /// within the steam protocol
    ContentVersion,
    /// Returned when the current CM cannot service the user's request.
    ///
    /// The user should try another.
    TryAnotherCM,
    /// Returned when the user is already logged in elsewhere and the
    /// cached credential login failed.
    PasswordRequiredToKickSession,
    /// Returned when the user is already logged in elsewhere, you
    /// must wait before trying again
    AlreadyLoggedInElsewhere,
    /// Returned when a long running operation (e.g. download) is
    /// suspended/paused.
    Suspended,
    /// Returned when an operation is cancelled
    Cancelled,
    /// Returned when an operation is cancelled due to data corruption
    DataCorruption,
    /// Returned when an operation is cancelled due to running out of disk
    /// space
    DiskFull,
    /// Returned when a remote call or an IPC call failed
    RemoteCallFailed,
    /// Returned when a password could not be verified as its unset
    /// server side
    PasswordUnset,
    /// Returned when the external account is not linked to a steam
    /// account
    ExternalAccountUnlinked,
    /// Returned when the PSN ticket is invalid
    PSNTicketInvalid,
    /// Returned when the external account is already linked to a steam
    /// account
    ExternalAccountAlreadyLinked,
    /// Returned when sync cannot resume due to a file conflict
    RemoteFileConflict,
    /// Returned when the requested new password is not legal
    IllegalPassword,
    /// Returned when the new value is the same as the previous value
    SameAsPreviousValue,
    /// Returned when the account logon is denied to 2nd factor authentication
    /// failure
    AccountLogonDenied,
    /// Returned when the requested new password is the same as the
    /// previous password
    CannotUseOldPassword,
    /// Returned when logging in is denied due to an invalid auth code
    InvalidLoginAuthCode,
    /// Returned when logging in fails due to no email being set for 2nd
    /// factor authentication
    AccountLogonDeniedNoMail,
    /// Undocumented
    HardwareNotCapableOfIPT,
    /// Undocumented
    IPTInitError,
    /// Returned when a operation fails due to parental control restrictions
    /// for a user
    ParentalControlRestricted,
    /// Returned when a facebook query returns an error
    FacebookQueryError,
    /// Returned when account login is denied due to an expired auth code
    ExpiredLoginAuthCode,
    /// Undocumented
    IPLoginRestrictionFailed,
    /// Undocumented
    AccountLockedDown,
    /// Undocumented
    AccountLogonDeniedVerifiedEmailRequired,
    /// Undocumented
    NoMatchingURL,
    /// Returned when something fails to parse/has a missing field
    BadResponse,
    /// Returned when a user cannot complete the action until they
    /// re-enter their password
    RequirePasswordReEntry,
    /// Returned when an entered value is outside the acceptable range
    ValueOutOfRange,
    /// Returned when an error happens that the steamworks API didn't
    /// expect to happen
    UnexpectedError,
    /// Returned when the requested service is disabled
    Disabled,
    /// Returned when the set of files submitted to the CEG server
    /// are not valid
    InvalidCEGSubmission,
    /// Returned when the device being used is not allowed to perform
    /// this action
    RestrictedDevice,
    /// Returned when an action is prevented due to region restrictions
    RegionLocked,
    /// Returned when an action failed due to a temporary rate limit
    RateLimitExceeded,
    /// Returned when a account needs to use a two-factor code to login
    AccountLoginDeniedNeedTwoFactor,
    /// Returned when the item attempting to be accessed has been deleted
    ItemDeleted,
    /// Returned when the account login failed and you should throttle the
    /// response to the possible attacker
    AccountLoginDeniedThrottle,
    /// Returned when the two factor code provided mismatched the expected
    /// one
    TwoFactorCodeMismatch,
    /// Returned when the two factor activation code mismatched the expected
    /// one
    TwoFactorActivationCodeMismatch,
    /// Returned when the account has been associated with multiple partners
    AccountAssociatedToMultiplePartners,
    /// Returned when the data wasn't modified
    NotModified,
    /// Returned when the account doesn't have a mobile device associated with
    /// it
    NoMobileDevice,
    /// Returned when the current time is out of range or tolerance
    TimeNotSynced,
    /// Returned when the sms code failed to validate
    SmsCodeFailed,
    /// Returned when too many accounts are accessing the requested
    /// resource
    AccountLimitExceeded,
    /// Returned when there have been too many changes to the account
    AccountActivityLimitExceeded,
    /// Returned when there have been too many changes to the phone
    PhoneActivityLimitExceeded,
    /// Returned when the refund can not be sent to the payment method
    /// and the steam wallet must be used
    RefundToWallet,
    /// Returned when steam failed to send an email
    EmailSendFailure,
    /// Returned when an action cannot be performed until the payment
    /// has settled
    NotSettled,
    /// Returned when the user needs to provide a valid captcha
    NeedCaptcha,
    /// Returned when the game server login token owned by the token's owner
    /// been banned
    GSLTDenied,
    /// Returned when the game server owner has been denied for other reasons
    /// (account lock, community ban, vac ban, missing phone)
    GSOwnerDenied,
    /// Returned when the type of item attempted to be acted on is invalid
    InvalidItemType,
    /// Returned when the IP address has been banned for taking this action
    IPBanned,
    /// Returned when the game server login token has expired
    ///
    /// It can be reset for use
    GSLTExpired,
    /// Returned when the user does not have the wallet funds to complete
    /// the action
    InsufficientFunds,
    /// Returned when there are too many of the requested action pending
    /// already
    TooManyPending,
    /// Returned when there is no site licenses found
    NoSiteLicensesFound,
    /// Returned when WG could not send a response because it exceeded the
    /// max network send size
    WGNetworkSendExceeded,
}

impl SteamError {
    /// The number the service uses for this outcome. `InitFailed` is raised
    /// on this side of the boundary and has no number.
    pub open spec fn code(self) -> Option<int> {
        match self {
            SteamError::InitFailed => None,
            SteamError::Generic => Some(2int),
            SteamError::NoConnection => Some(3int),
            SteamError::InvalidPassword => Some(5int),
            SteamError::LoggedInElsewhere => Some(6int),
            SteamError::InvalidProtocolVersion => Some(7int),
            SteamError::InvalidParameter => Some(8int),
            SteamError::FileNotFound => Some(9int),
            SteamError::Busy => Some(10int),
            SteamError::InvalidState => Some(11int),
            SteamError::InvalidName => Some(12int),
            SteamError::InvalidEmail => Some(13int),
            SteamError::DuplicateName => Some(14int),
            SteamError::AccessDenied => Some(15int),
            SteamError::Timeout => Some(16int),
            SteamError::Banned => Some(17int),
            SteamError::AccountNotFound => Some(18int),
            SteamError::InvalidSteamID => Some(19int),
            SteamError::ServiceUnavailable => Some(20int),
            SteamError::NotLoggedOn => Some(21int),
            SteamError::Pending => Some(22int),
            SteamError::EncryptionFailure => Some(23int),
            SteamError::InsufficientPrivilege => Some(24int),
            SteamError::LimitExceeded => Some(25int),
            SteamError::Revoked => Some(26int),
            SteamError::Expired => Some(27int),
            SteamError::AlreadyRedeemed => Some(28int),
            SteamError::DuplicateRequest => Some(29int),
            SteamError::AlreadyOwned => Some(30int),
            SteamError::IPNotFound => Some(31int),
            SteamError::PersistFailed => Some(32int),
            SteamError::LockingFailed => Some(33int),
            SteamError::LogonSessionReplaced => Some(34int),
            SteamError::ConnectFailed => Some(35int),
            SteamError::HandshakeFailed => Some(36int),
            SteamError::IOFailure => Some(37int),
            SteamError::RemoteDisconnect => Some(38int),
            SteamError::ShoppingCartNotFound => Some(39int),
            SteamError::Blocked => Some(40int),
            SteamError::Ignored => Some(41int),
            SteamError::NoMatch => Some(42int),
            SteamError::AccountDisabled => Some(43int),
            SteamError::ServiceReadOnly => Some(44int),
            SteamError::AccountNotFeatured => Some(45int),
            SteamError::AdministratorOK => Some(46int),
            SteamError::ContentVersion => Some(47int),
            SteamError::TryAnotherCM => Some(48int),
            SteamError::PasswordRequiredToKickSession => Some(49int),
            SteamError::AlreadyLoggedInElsewhere => Some(50int),
            SteamError::Suspended => Some(51int),
            SteamError::Cancelled => Some(52int),
            SteamError::DataCorruption => Some(53int),
            SteamError::DiskFull => Some(54int),
            SteamError::RemoteCallFailed => Some(55int),
            SteamError::PasswordUnset => Some(56int),
            SteamError::ExternalAccountUnlinked => Some(57int),
            SteamError::PSNTicketInvalid => Some(58int),
            SteamError::ExternalAccountAlreadyLinked => Some(59int),
            SteamError::RemoteFileConflict => Some(60int),
            SteamError::IllegalPassword => Some(61int),
            SteamError::SameAsPreviousValue => Some(62int),
            SteamError::AccountLogonDenied => Some(63int),
            SteamError::CannotUseOldPassword => Some(64int),
            SteamError::InvalidLoginAuthCode => Some(65int),
            SteamError::AccountLogonDeniedNoMail => Some(66int),
            SteamError::HardwareNotCapableOfIPT => Some(67int),
            SteamError::IPTInitError => Some(68int),
            SteamError::ParentalControlRestricted => Some(69int),
            SteamError::FacebookQueryError => Some(70int),
            SteamError::ExpiredLoginAuthCode => Some(71int),
            SteamError::IPLoginRestrictionFailed => Some(72int),
            SteamError::AccountLockedDown => Some(73int),
            SteamError::AccountLogonDeniedVerifiedEmailRequired => Some(74int),
            SteamError::NoMatchingURL => Some(75int),
            SteamError::BadResponse => Some(76int),
            SteamError::RequirePasswordReEntry => Some(77int),
            SteamError::ValueOutOfRange => Some(78int),
            SteamError::UnexpectedError => Some(79int),
            SteamError::Disabled => Some(80int),
            SteamError::InvalidCEGSubmission => Some(81int),
            SteamError::RestrictedDevice => Some(82int),
            SteamError::RegionLocked => Some(83int),
            SteamError::RateLimitExceeded => Some(84int),
            SteamError::AccountLoginDeniedNeedTwoFactor => Some(85int),
            SteamError::ItemDeleted => Some(86int),
            SteamError::AccountLoginDeniedThrottle => Some(87int),
            SteamError::TwoFactorCodeMismatch => Some(88int),
            SteamError::TwoFactorActivationCodeMismatch => Some(89int),
            SteamError::AccountAssociatedToMultiplePartners => Some(90int),
            SteamError::NotModified => Some(91int),
            SteamError::NoMobileDevice => Some(92int),
            SteamError::TimeNotSynced => Some(93int),
            SteamError::SmsCodeFailed => Some(94int),
            SteamError::AccountLimitExceeded => Some(95int),
            SteamError::AccountActivityLimitExceeded => Some(96int),
            SteamError::PhoneActivityLimitExceeded => Some(97int),
            SteamError::RefundToWallet => Some(98int),
            SteamError::EmailSendFailure => Some(99int),
            SteamError::NotSettled => Some(100int),
            SteamError::NeedCaptcha => Some(101int),
            SteamError::GSLTDenied => Some(102int),
            SteamError::GSOwnerDenied => Some(103int),
            SteamError::InvalidItemType => Some(104int),
            SteamError::IPBanned => Some(105int),
            SteamError::GSLTExpired => Some(106int),
            SteamError::InsufficientFunds => Some(107int),
            SteamError::TooManyPending => Some(108int),
            SteamError::NoSiteLicensesFound => Some(109int),
            SteamError::WGNetworkSendExceeded => Some(110int),
        }
    }

    /// The numbers that stand for an outcome: 2 to 110, without 4.
    pub open spec fn has_code(code: int) -> bool {
        2 <= code <= 110 && code != 4
    }

    /// The outcome that carries `code`; meaningful where `has_code(code)`.
    pub open spec fn of_code(code: int) -> Self {
        choose|v: Self| v.code() == Some(code)
    }

    /// No two outcomes share a number.
    pub proof fn lemma_code_injective(a: Self, b: Self)
        requires
            a.code() is Some,
            a.code() == b.code(),
        ensures
            a == b,
    {
    }

    /// `of_code` undoes `code`.
    pub proof fn lemma_of_code(v: Self)
        requires
            v.code() is Some,
        ensures
            Self::has_code(v.code().unwrap()),
            Self::of_code(v.code().unwrap()) == v,
    {
        Self::lemma_code_injective(v, Self::of_code(v.code().unwrap()));
    }

    /// Finds the outcome for a number reported by the service.
    pub fn lookup(code: i64) -> (found: Option<Self>)
        ensures
            found is Some <==> Self::has_code(code as int),
            found matches Some(v) ==> v.code() == Some(code as int) && v == Self::of_code(code as int),
    {
        let found = match code {
            2 => Some(SteamError::Generic),
            3 => Some(SteamError::NoConnection),
            5 => Some(SteamError::InvalidPassword),
            6 => Some(SteamError::LoggedInElsewhere),
            7 => Some(SteamError::InvalidProtocolVersion),
            8 => Some(SteamError::InvalidParameter),
            9 => Some(SteamError::FileNotFound),
            10 => Some(SteamError::Busy),
            11 => Some(SteamError::InvalidState),
            12 => Some(SteamError::InvalidName),
            13 => Some(SteamError::InvalidEmail),
            14 => Some(SteamError::DuplicateName),
            15 => Some(SteamError::AccessDenied),
            16 => Some(SteamError::Timeout),
            17 => Some(SteamError::Banned),
            18 => Some(SteamError::AccountNotFound),
            19 => Some(SteamError::InvalidSteamID),
            20 => Some(SteamError::ServiceUnavailable),
            21 => Some(SteamError::NotLoggedOn),
            22 => Some(SteamError::Pending),
            23 => Some(SteamError::EncryptionFailure),
            24 => Some(SteamError::InsufficientPrivilege),
            25 => Some(SteamError::LimitExceeded),
            26 => Some(SteamError::Revoked),
            27 => Some(SteamError::Expired),
            28 => Some(SteamError::AlreadyRedeemed),
            29 => Some(SteamError::DuplicateRequest),
            30 => Some(SteamError::AlreadyOwned),
            31 => Some(SteamError::IPNotFound),
            32 => Some(SteamError::PersistFailed),
            33 => Some(SteamError::LockingFailed),
            34 => Some(SteamError::LogonSessionReplaced),
            35 => Some(SteamError::ConnectFailed),
            36 => Some(SteamError::HandshakeFailed),
            37 => Some(SteamError::IOFailure),
            38 => Some(SteamError::RemoteDisconnect),
            39 => Some(SteamError::ShoppingCartNotFound),
            40 => Some(SteamError::Blocked),
            41 => Some(SteamError::Ignored),
            42 => Some(SteamError::NoMatch),
            43 => Some(SteamError::AccountDisabled),
            44 => Some(SteamError::ServiceReadOnly),
            45 => Some(SteamError::AccountNotFeatured),
            46 => Some(SteamError::AdministratorOK),
            47 => Some(SteamError::ContentVersion),
            48 => Some(SteamError::TryAnotherCM),
            49 => Some(SteamError::PasswordRequiredToKickSession),
            50 => Some(SteamError::AlreadyLoggedInElsewhere),
            51 => Some(SteamError::Suspended),
            52 => Some(SteamError::Cancelled),
            53 => Some(SteamError::DataCorruption),
            54 => Some(SteamError::DiskFull),
            55 => Some(SteamError::RemoteCallFailed),
            56 => Some(SteamError::PasswordUnset),
            57 => Some(SteamError::ExternalAccountUnlinked),
            58 => Some(SteamError::PSNTicketInvalid),
            59 => Some(SteamError::ExternalAccountAlreadyLinked),
            60 => Some(SteamError::RemoteFileConflict),
            61 => Some(SteamError::IllegalPassword),
            62 => Some(SteamError::SameAsPreviousValue),
            63 => Some(SteamError::AccountLogonDenied),
            64 => Some(SteamError::CannotUseOldPassword),
            65 => Some(SteamError::InvalidLoginAuthCode),
            66 => Some(SteamError::AccountLogonDeniedNoMail),
            67 => Some(SteamError::HardwareNotCapableOfIPT),
            68 => Some(SteamError::IPTInitError),
            69 => Some(SteamError::ParentalControlRestricted),
            70 => Some(SteamError::FacebookQueryError),
            71 => Some(SteamError::ExpiredLoginAuthCode),
            72 => Some(SteamError::IPLoginRestrictionFailed),
            73 => Some(SteamError::AccountLockedDown),
            74 => Some(SteamError::AccountLogonDeniedVerifiedEmailRequired),
            75 => Some(SteamError::NoMatchingURL),
            76 => Some(SteamError::BadResponse),
            77 => Some(SteamError::RequirePasswordReEntry),
            78 => Some(SteamError::ValueOutOfRange),
            79 => Some(SteamError::UnexpectedError),
            80 => Some(SteamError::Disabled),
            81 => Some(SteamError::InvalidCEGSubmission),
            82 => Some(SteamError::RestrictedDevice),
            83 => Some(SteamError::RegionLocked),
            84 => Some(SteamError::RateLimitExceeded),
            85 => Some(SteamError::AccountLoginDeniedNeedTwoFactor),
            86 => Some(SteamError::ItemDeleted),
            87 => Some(SteamError::AccountLoginDeniedThrottle),
            88 => Some(SteamError::TwoFactorCodeMismatch),
            89 => Some(SteamError::TwoFactorActivationCodeMismatch),
            90 => Some(SteamError::AccountAssociatedToMultiplePartners),
            91 => Some(SteamError::NotModified),
            92 => Some(SteamError::NoMobileDevice),
            93 => Some(SteamError::TimeNotSynced),
            94 => Some(SteamError::SmsCodeFailed),
            95 => Some(SteamError::AccountLimitExceeded),
            96 => Some(SteamError::AccountActivityLimitExceeded),
            97 => Some(SteamError::PhoneActivityLimitExceeded),
            98 => Some(SteamError::RefundToWallet),
            99 => Some(SteamError::EmailSendFailure),
            100 => Some(SteamError::NotSettled),
            101 => Some(SteamError::NeedCaptcha),
            102 => Some(SteamError::GSLTDenied),
            103 => Some(SteamError::GSOwnerDenied),
            104 => Some(SteamError::InvalidItemType),
            105 => Some(SteamError::IPBanned),
            106 => Some(SteamError::GSLTExpired),
            107 => Some(SteamError::InsufficientFunds),
            108 => Some(SteamError::TooManyPending),
            109 => Some(SteamError::NoSiteLicensesFound),
            110 => Some(SteamError::WGNetworkSendExceeded),
            _ => None,
        };
        proof {
            if let Some(v) = found {
                Self::lemma_of_code(v);
            }
        }
        found
    }

    /// Converts a number that is known to stand for an outcome.
    pub fn from_code(code: u32) -> (outcome: Self)
        requires
            Self::has_code(code as int),
        ensures
            outcome.code() == Some(code as int),
            outcome == Self::of_code(code as int),
    {
        match Self::lookup(code as i64) {
            Some(v) => v,
            None => SteamError::Generic,
        }
    }
}

impl TryFrom<i64> for SteamError {
    type Error = InvalidErrorCode;

    fn try_from(r: i64) -> (converted: Result<Self, InvalidErrorCode>) {
        match Self::lookup(r) {
            Some(v) => Ok(v),
            None => Err(InvalidErrorCode),
        }
    }
}

impl vstd::std_specs::convert::TryFromSpecImpl<i64> for SteamError {
    open spec fn obeys_try_from_spec() -> bool {
        true
    }

    open spec fn try_from_spec(r: i64) -> Result<Self, InvalidErrorCode> {
        if Self::has_code(r as int) {
            Ok(Self::of_code(r as int))
        } else {
            Err(InvalidErrorCode)
        }
    }
}

} // verus!
