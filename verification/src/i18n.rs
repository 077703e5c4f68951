//! Translation of user-facing messages with Fluent.
//!
//! Supported locales: `en-US` (English, the default) and `qaa` (pirate
//! speak; `qaa` is reserved for private use by ISO 639-2, as BCP 47
//! allows). Each message is looked up by its Fluent message ID in the
//! locale's resource; both resources hold a message for every key. A
//! message a resource does not hold would be rendered as
//! `[Missing translation: <id>]`.

use vstd::prelude::*;
use vstd::string::*;
use fluent::{FluentBundle, FluentResource};
use unic_langid::LanguageIdentifier;
use crate::text::str_equal;

verus! {

/// Errors that can occur during internationalization operations
#[derive(Debug, Clone, Copy, PartialEq, Eq, Structural)]
pub enum I18nError {
    /// The locale lock is poisoned (another thread panicked while holding the lock)
    LockPoisoned,
    /// Failed to acquire the locale lock
    LockUnavailable,
}

impl I18nError {
    /// The message that describes this error.
    pub fn message(&self) -> (s: String)
        ensures
            s@ == (match self {
                I18nError::LockPoisoned => "locale lock is poisoned"@,
                I18nError::LockUnavailable => "failed to acquire locale lock"@,
            }),
    {
        match self {
            I18nError::LockPoisoned => String::from_str("locale lock is poisoned"),
            I18nError::LockUnavailable => String::from_str("failed to acquire locale lock"),
        }
    }
}

/// The English (US) locale identifier.
pub open spec fn en_us() -> Seq<char> {
    "en-US"@
}

/// The pirate locale identifier: `qaa`, reserved for private use.
pub open spec fn pirate() -> Seq<char> {
    "qaa"@
}

/// Supported languages/locales
#[derive(Debug, Clone, Copy, PartialEq, Eq, Structural)]
pub enum Language {
    /// English (United States), the default
    English,
    /// Pirate speak
    Pirate,
}

impl Language {
    /// Get the BCP 47 locale identifier for this language
    pub fn locale_id(self) -> (s: &'static str)
        ensures
            s@ == (match self {
                Language::English => en_us(),
                Language::Pirate => pirate(),
            }),
    {
        match self {
            Language::English => "en-US",
            Language::Pirate => "qaa",
        }
    }

    /// The language whose locale is `locale`: pirate for `qaa`, English
    /// for everything else.
    pub fn from_locale(locale: &str) -> (l: Language)
        ensures
            l == (if locale@ == pirate() { Language::Pirate } else { Language::English }),
    {
        if str_equal(locale, "qaa") {
            Language::Pirate
        } else {
            Language::English
        }
    }
}

/// The locale of a language.
pub open spec fn locale_of(lang: Language) -> Seq<char> {
    match lang {
        Language::English => en_us(),
        Language::Pirate => pirate(),
    }
}

/// The language a locale selects: pirate for `qaa`, English otherwise.
pub open spec fn language_of(locale: Seq<char>) -> Language {
    if locale == pirate() {
        Language::Pirate
    } else {
        Language::English
    }
}

/// Reading the language back from its locale gives the same language: a
/// language that is set is the language that is then read.
pub proof fn lemma_language_of_locale(lang: Language)
    ensures
        language_of(locale_of(lang)) == lang,
{
    reveal_strlit("en-US");
    reveal_strlit("qaa");
    assert(en_us() != pirate()) by {
        assert(en_us().len() != pirate().len());
    }
}

/// The language of the last of `langs`, the languages set in turn;
/// English when none was set.
pub open spec fn last_language(langs: Seq<Language>) -> Language {
    if langs.len() == 0 {
        Language::English
    } else {
        langs.last()
    }
}

/// The locale a setting holds after `LocaleSetting::new` and then
/// `set_language` with each of `langs` in turn, as their `ensures` give it.
/// Each call sets the locale whatever it was before, so only the last one
/// counts.
pub open spec fn locale_after(langs: Seq<Language>) -> Seq<char> {
    if langs.len() == 0 {
        en_us()
    } else {
        locale_of(langs.last())
    }
}

/// Messages follow the last language set: after any sequence of
/// `set_language` calls, `get_language` reads the last language set
/// (English if none was), and `get(key)` reads `key` as `translate` gives it
/// for that language's locale.
pub proof fn lemma_messages_follow_last_language(langs: Seq<Language>, key: TranslationKey)
    ensures
        language_of(locale_after(langs)) == last_language(langs),
        locale_after(langs) == locale_of(last_language(langs)),
        translation_of(key, locale_after(langs)) == translation_of(key, locale_of(last_language(langs))),
{
    lemma_language_of_locale(Language::English);
    lemma_language_of_locale(last_language(langs));
}

/// The language translations are made in: English until it is changed.
pub struct LocaleSetting {
    locale: String,
}

impl LocaleSetting {
    #[verifier::type_invariant]
    spec fn inv(&self) -> bool {
        self.locale@ == en_us() || self.locale@ == pirate()
    }

    /// The current locale.
    pub closed spec fn current(&self) -> Seq<char> {
        self.locale@
    }

    /// The setting every process starts with: English.
    pub fn new() -> (s: Self)
        ensures
            s.current() == en_us(),
    {
        LocaleSetting { locale: String::from_str("en-US") }
    }

    /// Set the current language for all translations
    pub fn set_language(&mut self, lang: Language)
        ensures
            final(self).current() == locale_of(lang),
    {
        let id = lang.locale_id();
        self.locale = String::from_str(id);
    }

    /// Get the current language
    pub fn get_language(&self) -> (r: Result<Language, I18nError>)
        ensures
            r == Ok::<Language, I18nError>(language_of(self.current())),
    {
        Ok(Language::from_locale(self.locale.as_str()))
    }

    /// Get the translated string for this key in the current language
    pub fn get(&self, key: TranslationKey) -> (r: Result<String, I18nError>)
        ensures
            r matches Ok(s) && s@ == translation_of(key, self.current()),
    {
        proof {
            use_type_invariant(self);
            lemma_language_of_locale(Language::English);
            lemma_language_of_locale(Language::Pirate);
        }
        let lang = Language::from_locale(self.locale.as_str());
        Ok(key.translate_to(lang))
    }
}

/// The Fluent resource of English messages.
pub open spec fn en_us_resource() -> Seq<char> {
    "progress-discovered = Discovered\nprogress-completed = Completed\nprogress-in-flight = In flight\nprogress-complete = Copy complete\nprogress-files = Files\nprogress-bytes = Bytes\nprogress-speed = Speed\nprogress-eta = Time remaining\nstatus-copying-file = Copying file\nstatus-copying-directory = Copying directory\nstatus-creating-symlink = Creating symlink\nstatus-creating-hardlink = Creating hardlink\nstatus-preserving-metadata = Preserving metadata\nstatus-complete = Complete\nstatus-failed = Failed\nerror-file-not-found = File not found\nerror-permission-denied = Permission denied\nerror-io-error = I/O error\nerror-invalid-path = Invalid path\nerror-source-not-exists = Source does not exist\nerror-destination-exists = Destination already exists\ninfo-starting-copy = Starting copy\ninfo-scanning-source = Scanning source\ninfo-creating-destination = Creating destination\ninfo-preserving-permissions = Preserving permissions\ninfo-preserving-ownership = Preserving ownership\ninfo-preserving-timestamps = Preserving timestamps\ninfo-preserving-xattrs = Preserving extended attributes\ninfo-preserving-acls = Preserving ACLs\ninfo-dry-run = Dry run: nothing will be changed\nhelp-description = High-performance bulk file copying utility using io_uring\nhelp-source = Source directory or file\nhelp-destination = Destination directory or file\nhelp-archive = Archive mode; same as -rlptgoD (recursive, links, perms, times, group, owner, devices)\nhelp-recursive = Recurse into directories\nhelp-links = Copy symlinks as symlinks\nhelp-perms = Preserve permissions\nhelp-times = Preserve modification times\nhelp-group = Preserve group\nhelp-owner = Preserve owner (super-user only)\nhelp-devices = Preserve device files (super-user only) and special files\nhelp-xattrs = Preserve extended attributes\nhelp-acls = Preserve ACLs (implies --perms)\nhelp-hard-links = Preserve hard links\nhelp-verbose = Verbose output (-v, -vv, -vvv)\nhelp-quiet = Quiet mode (suppress all output except errors)\nhelp-progress = Show progress information\nhelp-dry-run = Show what would be copied without actually copying\nhelp-pirate = Talk like a pirate\nhelp-queue-depth = Queue depth for io_uring operations\nhelp-max-files-in-flight = Maximum total files in flight (across all CPU cores)\nhelp-cpu-count = Number of CPU cores to use (0 = auto-detect)\nhelp-buffer-size = Buffer size in KB (0 = auto-detect)\nunit-bytes = bytes\nunit-kilobytes = KB\nunit-megabytes = MB\nunit-gigabytes = GB\nunit-seconds = seconds\nmisc-in = in\nmisc-of = of\nmisc-average = average\nmisc-total = total\n"@
}

/// The Fluent resource of pirate messages.
pub open spec fn pirate_resource() -> Seq<char> {
    "progress-discovered = Treasure sighted on the horizon, ahoy\nprogress-completed = Plundered\nprogress-in-flight = Under sail\nprogress-complete = The plunderin' be done, arr!\nprogress-files = Doubloons\nprogress-bytes = Pieces o' eight\nprogress-speed = Knots\nprogress-eta = Time till landfall\nstatus-copying-file = Haulin' the booty aboard\nstatus-copying-directory = Raidin' the hold\nstatus-creating-symlink = Drawin' a map to the treasure\nstatus-creating-hardlink = Lashin' the booty together\nstatus-preserving-metadata = Keepin' the ship's log\nstatus-complete = SHIVER ME TIMBERS! Mission complete! All treasure secured! Hoist the Jolly Roger! \u{1F3F4}\u{200D}\u{2620}\u{FE0F}\nstatus-failed = Sunk to Davy Jones' locker\nerror-file-not-found = Arr, that treasure be lost at sea\nerror-permission-denied = The captain forbids it, ye scallywag\nerror-io-error = The riggin' be tangled\nerror-invalid-path = That map be false\nerror-source-not-exists = There be no such island\nerror-destination-exists = That port be taken already\ninfo-starting-copy = Weigh anchor! The plunderin' begins\ninfo-scanning-source = Scourin' the island for loot\ninfo-creating-destination = Buildin' a new hideout\ninfo-preserving-permissions = Keepin' the captain's orders\ninfo-preserving-ownership = Keepin' the crew's claims\ninfo-preserving-timestamps = Keepin' the ship's clock true\ninfo-preserving-xattrs = Keepin' the secret markings\ninfo-preserving-acls = Keepin' the articles o' the crew\ninfo-dry-run = A drill, matey: no booty be moved\nhelp-description = A swift ship for haulin' files, powered by io_uring\nhelp-source = Where the treasure lies\nhelp-destination = Where the treasure be stashed\nhelp-archive = Take the lot, arr (same as -rlptgoD)\nhelp-recursive = Search every nook o' the hold\nhelp-links = Keep the treasure maps as maps\nhelp-perms = Keep the captain's orders\nhelp-times = Keep the ship's clock true\nhelp-group = Keep the crew together\nhelp-owner = Keep the captain (only the captain may)\nhelp-devices = Keep the strange contraptions (only the captain may)\nhelp-xattrs = Keep the secret markings\nhelp-acls = Keep the articles o' the crew\nhelp-hard-links = Keep the booty lashed together\nhelp-verbose = Shout louder, matey (-v, -vv, -vvv)\nhelp-quiet = Hold yer tongue, save for trouble\nhelp-progress = Watch the voyage from the crow's nest\nhelp-dry-run = Practise the raid without takin' a thing\nhelp-pirate = Talk like a pirate, arr\nhelp-queue-depth = How many barrels fit in the io_uring hold\nhelp-max-files-in-flight = Most booty hauled at once, across all hands\nhelp-cpu-count = How many hands on deck (0 = count 'em yerself)\nhelp-buffer-size = Size o' the cargo net in KB (0 = pick one yerself)\nunit-bytes = pieces o' eight\nunit-kilobytes = chests\nunit-megabytes = barrels\nunit-gigabytes = galleons\nunit-seconds = bells\nmisc-in = aboard\nmisc-of = o'\nmisc-average = on the whole\nmisc-total = the whole haul\n"@
}

/// The resource a locale's messages are looked up in: the pirate one for
/// `qaa`, the English one for every other locale.
pub open spec fn resource_for_locale(locale: Seq<char>) -> Seq<char> {
    if locale == pirate() {
        pirate_resource()
    } else {
        en_us_resource()
    }
}

/// Get the Fluent resource for a locale
fn get_ftl_for_locale(locale: &str) -> (s: &'static str)
    ensures
        s@ == resource_for_locale(locale@),
{
    if str_equal(locale, "qaa") {
        "progress-discovered = Treasure sighted on the horizon, ahoy\nprogress-completed = Plundered\nprogress-in-flight = Under sail\nprogress-complete = The plunderin' be done, arr!\nprogress-files = Doubloons\nprogress-bytes = Pieces o' eight\nprogress-speed = Knots\nprogress-eta = Time till landfall\nstatus-copying-file = Haulin' the booty aboard\nstatus-copying-directory = Raidin' the hold\nstatus-creating-symlink = Drawin' a map to the treasure\nstatus-creating-hardlink = Lashin' the booty together\nstatus-preserving-metadata = Keepin' the ship's log\nstatus-complete = SHIVER ME TIMBERS! Mission complete! All treasure secured! Hoist the Jolly Roger! \u{1F3F4}\u{200D}\u{2620}\u{FE0F}\nstatus-failed = Sunk to Davy Jones' locker\nerror-file-not-found = Arr, that treasure be lost at sea\nerror-permission-denied = The captain forbids it, ye scallywag\nerror-io-error = The riggin' be tangled\nerror-invalid-path = That map be false\nerror-source-not-exists = There be no such island\nerror-destination-exists = That port be taken already\ninfo-starting-copy = Weigh anchor! The plunderin' begins\ninfo-scanning-source = Scourin' the island for loot\ninfo-creating-destination = Buildin' a new hideout\ninfo-preserving-permissions = Keepin' the captain's orders\ninfo-preserving-ownership = Keepin' the crew's claims\ninfo-preserving-timestamps = Keepin' the ship's clock true\ninfo-preserving-xattrs = Keepin' the secret markings\ninfo-preserving-acls = Keepin' the articles o' the crew\ninfo-dry-run = A drill, matey: no booty be moved\nhelp-description = A swift ship for haulin' files, powered by io_uring\nhelp-source = Where the treasure lies\nhelp-destination = Where the treasure be stashed\nhelp-archive = Take the lot, arr (same as -rlptgoD)\nhelp-recursive = Search every nook o' the hold\nhelp-links = Keep the treasure maps as maps\nhelp-perms = Keep the captain's orders\nhelp-times = Keep the ship's clock true\nhelp-group = Keep the crew together\nhelp-owner = Keep the captain (only the captain may)\nhelp-devices = Keep the strange contraptions (only the captain may)\nhelp-xattrs = Keep the secret markings\nhelp-acls = Keep the articles o' the crew\nhelp-hard-links = Keep the booty lashed together\nhelp-verbose = Shout louder, matey (-v, -vv, -vvv)\nhelp-quiet = Hold yer tongue, save for trouble\nhelp-progress = Watch the voyage from the crow's nest\nhelp-dry-run = Practise the raid without takin' a thing\nhelp-pirate = Talk like a pirate, arr\nhelp-queue-depth = How many barrels fit in the io_uring hold\nhelp-max-files-in-flight = Most booty hauled at once, across all hands\nhelp-cpu-count = How many hands on deck (0 = count 'em yerself)\nhelp-buffer-size = Size o' the cargo net in KB (0 = pick one yerself)\nunit-bytes = pieces o' eight\nunit-kilobytes = chests\nunit-megabytes = barrels\nunit-gigabytes = galleons\nunit-seconds = bells\nmisc-in = aboard\nmisc-of = o'\nmisc-average = on the whole\nmisc-total = the whole haul\n"
    } else {
        "progress-discovered = Discovered\nprogress-completed = Completed\nprogress-in-flight = In flight\nprogress-complete = Copy complete\nprogress-files = Files\nprogress-bytes = Bytes\nprogress-speed = Speed\nprogress-eta = Time remaining\nstatus-copying-file = Copying file\nstatus-copying-directory = Copying directory\nstatus-creating-symlink = Creating symlink\nstatus-creating-hardlink = Creating hardlink\nstatus-preserving-metadata = Preserving metadata\nstatus-complete = Complete\nstatus-failed = Failed\nerror-file-not-found = File not found\nerror-permission-denied = Permission denied\nerror-io-error = I/O error\nerror-invalid-path = Invalid path\nerror-source-not-exists = Source does not exist\nerror-destination-exists = Destination already exists\ninfo-starting-copy = Starting copy\ninfo-scanning-source = Scanning source\ninfo-creating-destination = Creating destination\ninfo-preserving-permissions = Preserving permissions\ninfo-preserving-ownership = Preserving ownership\ninfo-preserving-timestamps = Preserving timestamps\ninfo-preserving-xattrs = Preserving extended attributes\ninfo-preserving-acls = Preserving ACLs\ninfo-dry-run = Dry run: nothing will be changed\nhelp-description = High-performance bulk file copying utility using io_uring\nhelp-source = Source directory or file\nhelp-destination = Destination directory or file\nhelp-archive = Archive mode; same as -rlptgoD (recursive, links, perms, times, group, owner, devices)\nhelp-recursive = Recurse into directories\nhelp-links = Copy symlinks as symlinks\nhelp-perms = Preserve permissions\nhelp-times = Preserve modification times\nhelp-group = Preserve group\nhelp-owner = Preserve owner (super-user only)\nhelp-devices = Preserve device files (super-user only) and special files\nhelp-xattrs = Preserve extended attributes\nhelp-acls = Preserve ACLs (implies --perms)\nhelp-hard-links = Preserve hard links\nhelp-verbose = Verbose output (-v, -vv, -vvv)\nhelp-quiet = Quiet mode (suppress all output except errors)\nhelp-progress = Show progress information\nhelp-dry-run = Show what would be copied without actually copying\nhelp-pirate = Talk like a pirate\nhelp-queue-depth = Queue depth for io_uring operations\nhelp-max-files-in-flight = Maximum total files in flight (across all CPU cores)\nhelp-cpu-count = Number of CPU cores to use (0 = auto-detect)\nhelp-buffer-size = Buffer size in KB (0 = auto-detect)\nunit-bytes = bytes\nunit-kilobytes = KB\nunit-megabytes = MB\nunit-gigabytes = GB\nunit-seconds = seconds\nmisc-in = in\nmisc-of = of\nmisc-average = average\nmisc-total = total\n"
    }
}

/// Whether `locale` parses as a Unicode language identifier
/// (`unic_langid::LanguageIdentifier`'s `FromStr`).
pub uninterp spec fn language_identifier_parses(locale: Seq<char>) -> bool;

/// The value of message `msg_id` in Fluent resource `ftl`, formatted
/// without arguments for `locale`; `None` when the resource has no such
/// message or the message has no value.
pub uninterp spec fn fluent_message(locale: Seq<char>, ftl: Seq<char>, msg_id: Seq<char>) -> Option<Seq<char>>;

/// Parses `locale` as a `unic_langid::LanguageIdentifier` and reports
/// whether that succeeded; `en-US` and `qaa` (a two- or three-letter
/// language subtag, with a region subtag for the first) parse.
#[verifier::external_body]
fn parses_as_language_identifier(locale: &str) -> (r: bool)
    ensures
        r == language_identifier_parses(locale@),
        locale@ == en_us() ==> r,
        locale@ == pirate() ==> r,
{
    locale.parse::<LanguageIdentifier>().is_ok()
}

/// Builds a `fluent::FluentBundle` for `locale` holding the resource `ftl`
/// (`FluentResource::try_new`, `FluentBundle::new`, `add_resource`), then
/// looks up `msg_id` (`get_message`, `value`) and formats its value with
/// no arguments (`format_pattern`). A resource that parses only in part
/// is used as far as it parsed.
#[verifier::external_body]
fn fluent_lookup(locale: &str, ftl: &str, msg_id: &str) -> (r: Option<String>)
    requires
        language_identifier_parses(locale@),
    ensures
        match r {
            Some(s) => fluent_message(locale@, ftl@, msg_id@) == Some(s@),
            None => fluent_message(locale@, ftl@, msg_id@) is None,
        },
{
    let langid: LanguageIdentifier = locale.parse().expect("checked by the caller");
    let resource = match FluentResource::try_new(ftl.to_string()) {
        Ok(res) => res,
        Err((res, _)) => res,
    };
    let mut bundle = FluentBundle::new(vec![langid]);
    let _ = bundle.add_resource(resource);
    let pattern = bundle.get_message(msg_id)?.value()?;
    let mut errors = vec![];
    Some(bundle.format_pattern(pattern, None, &mut errors).to_string())
}

/// Translation key enum - maps to Fluent message IDs
#[derive(Debug, Clone, Copy, PartialEq, Eq, Structural)]
pub enum TranslationKey {
    // Progress messages
    /// Fluent message `progress-discovered`
    ProgressDiscovered,
    /// Fluent message `progress-completed`
    ProgressCompleted,
    /// Fluent message `progress-in-flight`
    ProgressInFlight,
    /// Fluent message `progress-complete`
    ProgressComplete,
    /// Fluent message `progress-files`
    ProgressFiles,
    /// Fluent message `progress-bytes`
    ProgressBytes,
    /// Fluent message `progress-speed`
    ProgressSpeed,
    /// Fluent message `progress-eta`
    ProgressEta,

    // Status messages
    /// Fluent message `status-copying-file`
    StatusCopyingFile,
    /// Fluent message `status-copying-directory`
    StatusCopyingDirectory,
    /// Fluent message `status-creating-symlink`
    StatusCreatingSymlink,
    /// Fluent message `status-creating-hardlink`
    StatusCreatingHardlink,
    /// Fluent message `status-preserving-metadata`
    StatusPreservingMetadata,
    /// Fluent message `status-complete`
    StatusComplete,
    /// Fluent message `status-failed`
    StatusFailed,

    // Error messages
    /// Fluent message `error-file-not-found`
    ErrorFileNotFound,
    /// Fluent message `error-permission-denied`
    ErrorPermissionDenied,
    /// Fluent message `error-io-error`
    ErrorIoError,
    /// Fluent message `error-invalid-path`
    ErrorInvalidPath,
    /// Fluent message `error-source-not-exists`
    ErrorSourceNotExists,
    /// Fluent message `error-destination-exists`
    ErrorDestinationExists,

    // Info messages
    /// Fluent message `info-starting-copy`
    InfoStartingCopy,
    /// Fluent message `info-scanning-source`
    InfoScanningSource,
    /// Fluent message `info-creating-destination`
    InfoCreatingDestination,
    /// Fluent message `info-preserving-permissions`
    InfoPreservingPermissions,
    /// Fluent message `info-preserving-ownership`
    InfoPreservingOwnership,
    /// Fluent message `info-preserving-timestamps`
    InfoPreservingTimestamps,
    /// Fluent message `info-preserving-xattrs`
    InfoPreservingXattrs,
    /// Fluent message `info-preserving-acls`
    InfoPreservingAcls,
    /// Fluent message `info-dry-run`
    InfoDryRun,

    // CLI help messages
    /// Fluent message `help-description`
    HelpDescription,
    /// Fluent message `help-source`
    HelpSource,
    /// Fluent message `help-destination`
    HelpDestination,
    /// Fluent message `help-archive`
    HelpArchive,
    /// Fluent message `help-recursive`
    HelpRecursive,
    /// Fluent message `help-links`
    HelpLinks,
    /// Fluent message `help-perms`
    HelpPerms,
    /// Fluent message `help-times`
    HelpTimes,
    /// Fluent message `help-group`
    HelpGroup,
    /// Fluent message `help-owner`
    HelpOwner,
    /// Fluent message `help-devices`
    HelpDevices,
    /// Fluent message `help-xattrs`
    HelpXattrs,
    /// Fluent message `help-acls`
    HelpAcls,
    /// Fluent message `help-hard-links`
    HelpHardLinks,
    /// Fluent message `help-verbose`
    HelpVerbose,
    /// Fluent message `help-quiet`
    HelpQuiet,
    /// Fluent message `help-progress`
    HelpProgress,
    /// Fluent message `help-dry-run`
    HelpDryRun,
    /// Fluent message `help-pirate`
    HelpPirate,
    /// Fluent message `help-queue-depth`
    HelpQueueDepth,
    /// Fluent message `help-max-files-in-flight`
    HelpMaxFilesInFlight,
    /// Fluent message `help-cpu-count`
    HelpCpuCount,
    /// Fluent message `help-buffer-size`
    HelpBufferSize,

    // Units
    /// Fluent message `unit-bytes`
    UnitBytes,
    /// Fluent message `unit-kilobytes`
    UnitKilobytes,
    /// Fluent message `unit-megabytes`
    UnitMegabytes,
    /// Fluent message `unit-gigabytes`
    UnitGigabytes,
    /// Fluent message `unit-seconds`
    UnitSeconds,

    // Misc
    /// Fluent message `misc-in`
    MiscIn,
    /// Fluent message `misc-of`
    MiscOf,
    /// Fluent message `misc-average`
    MiscAverage,
    /// Fluent message `misc-total`
    MiscTotal,
}

/// The Fluent message ID of each key.
pub open spec fn message_id_of(key: TranslationKey) -> Seq<char> {
    match key {
        TranslationKey::ProgressDiscovered => "progress-discovered"@,
        TranslationKey::ProgressCompleted => "progress-completed"@,
        TranslationKey::ProgressInFlight => "progress-in-flight"@,
        TranslationKey::ProgressComplete => "progress-complete"@,
        TranslationKey::ProgressFiles => "progress-files"@,
        TranslationKey::ProgressBytes => "progress-bytes"@,
        TranslationKey::ProgressSpeed => "progress-speed"@,
        TranslationKey::ProgressEta => "progress-eta"@,
        TranslationKey::StatusCopyingFile => "status-copying-file"@,
        TranslationKey::StatusCopyingDirectory => "status-copying-directory"@,
        TranslationKey::StatusCreatingSymlink => "status-creating-symlink"@,
        TranslationKey::StatusCreatingHardlink => "status-creating-hardlink"@,
        TranslationKey::StatusPreservingMetadata => "status-preserving-metadata"@,
        TranslationKey::StatusComplete => "status-complete"@,
        TranslationKey::StatusFailed => "status-failed"@,
        TranslationKey::ErrorFileNotFound => "error-file-not-found"@,
        TranslationKey::ErrorPermissionDenied => "error-permission-denied"@,
        TranslationKey::ErrorIoError => "error-io-error"@,
        TranslationKey::ErrorInvalidPath => "error-invalid-path"@,
        TranslationKey::ErrorSourceNotExists => "error-source-not-exists"@,
        TranslationKey::ErrorDestinationExists => "error-destination-exists"@,
        TranslationKey::InfoStartingCopy => "info-starting-copy"@,
        TranslationKey::InfoScanningSource => "info-scanning-source"@,
        TranslationKey::InfoCreatingDestination => "info-creating-destination"@,
        TranslationKey::InfoPreservingPermissions => "info-preserving-permissions"@,
        TranslationKey::InfoPreservingOwnership => "info-preserving-ownership"@,
        TranslationKey::InfoPreservingTimestamps => "info-preserving-timestamps"@,
        TranslationKey::InfoPreservingXattrs => "info-preserving-xattrs"@,
        TranslationKey::InfoPreservingAcls => "info-preserving-acls"@,
        TranslationKey::InfoDryRun => "info-dry-run"@,
        TranslationKey::HelpDescription => "help-description"@,
        TranslationKey::HelpSource => "help-source"@,
        TranslationKey::HelpDestination => "help-destination"@,
        TranslationKey::HelpArchive => "help-archive"@,
        TranslationKey::HelpRecursive => "help-recursive"@,
        TranslationKey::HelpLinks => "help-links"@,
        TranslationKey::HelpPerms => "help-perms"@,
        TranslationKey::HelpTimes => "help-times"@,
        TranslationKey::HelpGroup => "help-group"@,
        TranslationKey::HelpOwner => "help-owner"@,
        TranslationKey::HelpDevices => "help-devices"@,
        TranslationKey::HelpXattrs => "help-xattrs"@,
        TranslationKey::HelpAcls => "help-acls"@,
        TranslationKey::HelpHardLinks => "help-hard-links"@,
        TranslationKey::HelpVerbose => "help-verbose"@,
        TranslationKey::HelpQuiet => "help-quiet"@,
        TranslationKey::HelpProgress => "help-progress"@,
        TranslationKey::HelpDryRun => "help-dry-run"@,
        TranslationKey::HelpPirate => "help-pirate"@,
        TranslationKey::HelpQueueDepth => "help-queue-depth"@,
        TranslationKey::HelpMaxFilesInFlight => "help-max-files-in-flight"@,
        TranslationKey::HelpCpuCount => "help-cpu-count"@,
        TranslationKey::HelpBufferSize => "help-buffer-size"@,
        TranslationKey::UnitBytes => "unit-bytes"@,
        TranslationKey::UnitKilobytes => "unit-kilobytes"@,
        TranslationKey::UnitMegabytes => "unit-megabytes"@,
        TranslationKey::UnitGigabytes => "unit-gigabytes"@,
        TranslationKey::UnitSeconds => "unit-seconds"@,
        TranslationKey::MiscIn => "misc-in"@,
        TranslationKey::MiscOf => "misc-of"@,
        TranslationKey::MiscAverage => "misc-average"@,
        TranslationKey::MiscTotal => "misc-total"@,
    }
}

/// The Fluent message ID of every key, as the locale resources name the
/// messages.
pub proof fn lemma_message_id_table()
    ensures
        message_id_of(TranslationKey::ProgressDiscovered) == "progress-discovered"@,
        message_id_of(TranslationKey::ProgressCompleted) == "progress-completed"@,
        message_id_of(TranslationKey::ProgressInFlight) == "progress-in-flight"@,
        message_id_of(TranslationKey::ProgressComplete) == "progress-complete"@,
        message_id_of(TranslationKey::ProgressFiles) == "progress-files"@,
        message_id_of(TranslationKey::ProgressBytes) == "progress-bytes"@,
        message_id_of(TranslationKey::ProgressSpeed) == "progress-speed"@,
        message_id_of(TranslationKey::ProgressEta) == "progress-eta"@,
        message_id_of(TranslationKey::StatusCopyingFile) == "status-copying-file"@,
        message_id_of(TranslationKey::StatusCopyingDirectory) == "status-copying-directory"@,
        message_id_of(TranslationKey::StatusCreatingSymlink) == "status-creating-symlink"@,
        message_id_of(TranslationKey::StatusCreatingHardlink) == "status-creating-hardlink"@,
        message_id_of(TranslationKey::StatusPreservingMetadata) == "status-preserving-metadata"@,
        message_id_of(TranslationKey::StatusComplete) == "status-complete"@,
        message_id_of(TranslationKey::StatusFailed) == "status-failed"@,
        message_id_of(TranslationKey::ErrorFileNotFound) == "error-file-not-found"@,
        message_id_of(TranslationKey::ErrorPermissionDenied) == "error-permission-denied"@,
        message_id_of(TranslationKey::ErrorIoError) == "error-io-error"@,
        message_id_of(TranslationKey::ErrorInvalidPath) == "error-invalid-path"@,
        message_id_of(TranslationKey::ErrorSourceNotExists) == "error-source-not-exists"@,
        message_id_of(TranslationKey::ErrorDestinationExists) == "error-destination-exists"@,
        message_id_of(TranslationKey::InfoStartingCopy) == "info-starting-copy"@,
        message_id_of(TranslationKey::InfoScanningSource) == "info-scanning-source"@,
        message_id_of(TranslationKey::InfoCreatingDestination) == "info-creating-destination"@,
        message_id_of(TranslationKey::InfoPreservingPermissions) == "info-preserving-permissions"@,
        message_id_of(TranslationKey::InfoPreservingOwnership) == "info-preserving-ownership"@,
        message_id_of(TranslationKey::InfoPreservingTimestamps) == "info-preserving-timestamps"@,
        message_id_of(TranslationKey::InfoPreservingXattrs) == "info-preserving-xattrs"@,
        message_id_of(TranslationKey::InfoPreservingAcls) == "info-preserving-acls"@,
        message_id_of(TranslationKey::InfoDryRun) == "info-dry-run"@,
        message_id_of(TranslationKey::HelpDescription) == "help-description"@,
        message_id_of(TranslationKey::HelpSource) == "help-source"@,
        message_id_of(TranslationKey::HelpDestination) == "help-destination"@,
        message_id_of(TranslationKey::HelpArchive) == "help-archive"@,
        message_id_of(TranslationKey::HelpRecursive) == "help-recursive"@,
        message_id_of(TranslationKey::HelpLinks) == "help-links"@,
        message_id_of(TranslationKey::HelpPerms) == "help-perms"@,
        message_id_of(TranslationKey::HelpTimes) == "help-times"@,
        message_id_of(TranslationKey::HelpGroup) == "help-group"@,
        message_id_of(TranslationKey::HelpOwner) == "help-owner"@,
        message_id_of(TranslationKey::HelpDevices) == "help-devices"@,
        message_id_of(TranslationKey::HelpXattrs) == "help-xattrs"@,
        message_id_of(TranslationKey::HelpAcls) == "help-acls"@,
        message_id_of(TranslationKey::HelpHardLinks) == "help-hard-links"@,
        message_id_of(TranslationKey::HelpVerbose) == "help-verbose"@,
        message_id_of(TranslationKey::HelpQuiet) == "help-quiet"@,
        message_id_of(TranslationKey::HelpProgress) == "help-progress"@,
        message_id_of(TranslationKey::HelpDryRun) == "help-dry-run"@,
        message_id_of(TranslationKey::HelpPirate) == "help-pirate"@,
        message_id_of(TranslationKey::HelpQueueDepth) == "help-queue-depth"@,
        message_id_of(TranslationKey::HelpMaxFilesInFlight) == "help-max-files-in-flight"@,
        message_id_of(TranslationKey::HelpCpuCount) == "help-cpu-count"@,
        message_id_of(TranslationKey::HelpBufferSize) == "help-buffer-size"@,
        message_id_of(TranslationKey::UnitBytes) == "unit-bytes"@,
        message_id_of(TranslationKey::UnitKilobytes) == "unit-kilobytes"@,
        message_id_of(TranslationKey::UnitMegabytes) == "unit-megabytes"@,
        message_id_of(TranslationKey::UnitGigabytes) == "unit-gigabytes"@,
        message_id_of(TranslationKey::UnitSeconds) == "unit-seconds"@,
        message_id_of(TranslationKey::MiscIn) == "misc-in"@,
        message_id_of(TranslationKey::MiscOf) == "misc-of"@,
        message_id_of(TranslationKey::MiscAverage) == "misc-average"@,
        message_id_of(TranslationKey::MiscTotal) == "misc-total"@,
{
}

/// A few characters of a message ID, with its length: enough to tell the
/// IDs of all keys apart.
pub open spec fn id_signature(id: Seq<char>) -> (nat, char, char, char, char) {
    (id.len(), id[0], id[5], id[id.len() - 1], id[id.len() - 5])
}

/// The signature each key's message ID has.
pub open spec fn key_signature(key: TranslationKey) -> (nat, char, char, char, char) {
    match key {
        TranslationKey::ProgressDiscovered => (19, 'p', 'e', 'd', 'v'),
        TranslationKey::ProgressCompleted => (18, 'p', 'e', 'd', 'l'),
        TranslationKey::ProgressInFlight => (18, 'p', 'e', 't', 'l'),
        TranslationKey::ProgressComplete => (17, 'p', 'e', 'e', 'p'),
        TranslationKey::ProgressFiles => (14, 'p', 'e', 's', 'f'),
        TranslationKey::ProgressBytes => (14, 'p', 'e', 's', 'b'),
        TranslationKey::ProgressSpeed => (14, 'p', 'e', 'd', 's'),
        TranslationKey::ProgressEta => (12, 'p', 'e', 'a', 's'),
        TranslationKey::StatusCopyingFile => (19, 's', 's', 'e', '-'),
        TranslationKey::StatusCopyingDirectory => (24, 's', 's', 'y', 'c'),
        TranslationKey::StatusCreatingSymlink => (23, 's', 's', 'k', 'm'),
        TranslationKey::StatusCreatingHardlink => (24, 's', 's', 'k', 'd'),
        TranslationKey::StatusPreservingMetadata => (26, 's', 's', 'a', 'a'),
        TranslationKey::StatusComplete => (15, 's', 's', 'e', 'p'),
        TranslationKey::StatusFailed => (13, 's', 's', 'd', 'a'),
        TranslationKey::ErrorFileNotFound => (20, 'e', '-', 'd', 'f'),
        TranslationKey::ErrorPermissionDenied => (23, 'e', '-', 'd', 'e'),
        TranslationKey::ErrorIoError => (14, 'e', '-', 'r', 'e'),
        TranslationKey::ErrorInvalidPath => (18, 'e', '-', 'h', '-'),
        TranslationKey::ErrorSourceNotExists => (23, 'e', '-', 's', 'x'),
        TranslationKey::ErrorDestinationExists => (24, 'e', '-', 's', 'x'),
        TranslationKey::InfoStartingCopy => (18, 'i', 's', 'y', '-'),
        TranslationKey::InfoScanningSource => (20, 'i', 's', 'e', 'o'),
        TranslationKey::InfoCreatingDestination => (25, 'i', 'c', 'n', 'a'),
        TranslationKey::InfoPreservingPermissions => (27, 'i', 'p', 's', 's'),
        TranslationKey::InfoPreservingOwnership => (25, 'i', 'p', 'p', 'r'),
        TranslationKey::InfoPreservingTimestamps => (26, 'i', 'p', 's', 't'),
        TranslationKey::InfoPreservingXattrs => (22, 'i', 'p', 's', 'a'),
        TranslationKey::InfoPreservingAcls => (20, 'i', 'p', 's', '-'),
        TranslationKey::InfoDryRun => (12, 'i', 'd', 'n', 'y'),
        TranslationKey::HelpDescription => (16, 'h', 'd', 'n', 'p'),
        TranslationKey::HelpSource => (11, 'h', 's', 'e', 'o'),
        TranslationKey::HelpDestination => (16, 'h', 'd', 'n', 'a'),
        TranslationKey::HelpArchive => (12, 'h', 'a', 'e', 'c'),
        TranslationKey::HelpRecursive => (14, 'h', 'r', 'e', 'r'),
        TranslationKey::HelpLinks => (10, 'h', 'l', 's', 'l'),
        TranslationKey::HelpPerms => (10, 'h', 'p', 's', 'p'),
        TranslationKey::HelpTimes => (10, 'h', 't', 's', 't'),
        TranslationKey::HelpGroup => (10, 'h', 'g', 'p', 'g'),
        TranslationKey::HelpOwner => (10, 'h', 'o', 'r', 'o'),
        TranslationKey::HelpDevices => (12, 'h', 'd', 's', 'v'),
        TranslationKey::HelpXattrs => (11, 'h', 'x', 's', 'a'),
        TranslationKey::HelpAcls => (9, 'h', 'a', 's', '-'),
        TranslationKey::HelpHardLinks => (15, 'h', 'h', 's', 'l'),
        TranslationKey::HelpVerbose => (12, 'h', 'v', 'e', 'r'),
        TranslationKey::HelpQuiet => (10, 'h', 'q', 't', 'q'),
        TranslationKey::HelpProgress => (13, 'h', 'p', 's', 'g'),
        TranslationKey::HelpDryRun => (12, 'h', 'd', 'n', 'y'),
        TranslationKey::HelpPirate => (11, 'h', 'p', 'e', 'i'),
        TranslationKey::HelpQueueDepth => (16, 'h', 'q', 'h', 'd'),
        TranslationKey::HelpMaxFilesInFlight => (24, 'h', 'm', 't', 'l'),
        TranslationKey::HelpCpuCount => (14, 'h', 'c', 't', 'c'),
        TranslationKey::HelpBufferSize => (16, 'h', 'b', 'e', '-'),
        TranslationKey::UnitBytes => (10, 'u', 'b', 's', 'b'),
        TranslationKey::UnitKilobytes => (14, 'u', 'k', 's', 'b'),
        TranslationKey::UnitMegabytes => (14, 'u', 'm', 's', 'b'),
        TranslationKey::UnitGigabytes => (14, 'u', 'g', 's', 'b'),
        TranslationKey::UnitSeconds => (12, 'u', 's', 's', 'c'),
        TranslationKey::MiscIn => (7, 'm', 'i', 'n', 's'),
        TranslationKey::MiscOf => (7, 'm', 'o', 'f', 's'),
        TranslationKey::MiscAverage => (12, 'm', 'a', 'e', 'e'),
        TranslationKey::MiscTotal => (10, 'm', 't', 'l', 't'),
    }
}

/// Distinct keys name distinct messages: no two keys share a Fluent
/// message ID, so each key reads its own message.
pub proof fn lemma_message_ids_distinct(a: TranslationKey, b: TranslationKey)
    ensures
        message_id_of(a) == message_id_of(b) ==> a == b,
{
    reveal_strlit("progress-discovered");
    reveal_strlit("progress-completed");
    reveal_strlit("progress-in-flight");
    reveal_strlit("progress-complete");
    reveal_strlit("progress-files");
    reveal_strlit("progress-bytes");
    reveal_strlit("progress-speed");
    reveal_strlit("progress-eta");
    reveal_strlit("status-copying-file");
    reveal_strlit("status-copying-directory");
    reveal_strlit("status-creating-symlink");
    reveal_strlit("status-creating-hardlink");
    reveal_strlit("status-preserving-metadata");
    reveal_strlit("status-complete");
    reveal_strlit("status-failed");
    reveal_strlit("error-file-not-found");
    reveal_strlit("error-permission-denied");
    reveal_strlit("error-io-error");
    reveal_strlit("error-invalid-path");
    reveal_strlit("error-source-not-exists");
    reveal_strlit("error-destination-exists");
    reveal_strlit("info-starting-copy");
    reveal_strlit("info-scanning-source");
    reveal_strlit("info-creating-destination");
    reveal_strlit("info-preserving-permissions");
    reveal_strlit("info-preserving-ownership");
    reveal_strlit("info-preserving-timestamps");
    reveal_strlit("info-preserving-xattrs");
    reveal_strlit("info-preserving-acls");
    reveal_strlit("info-dry-run");
    reveal_strlit("help-description");
    reveal_strlit("help-source");
    reveal_strlit("help-destination");
    reveal_strlit("help-archive");
    reveal_strlit("help-recursive");
    reveal_strlit("help-links");
    reveal_strlit("help-perms");
    reveal_strlit("help-times");
    reveal_strlit("help-group");
    reveal_strlit("help-owner");
    reveal_strlit("help-devices");
    reveal_strlit("help-xattrs");
    reveal_strlit("help-acls");
    reveal_strlit("help-hard-links");
    reveal_strlit("help-verbose");
    reveal_strlit("help-quiet");
    reveal_strlit("help-progress");
    reveal_strlit("help-dry-run");
    reveal_strlit("help-pirate");
    reveal_strlit("help-queue-depth");
    reveal_strlit("help-max-files-in-flight");
    reveal_strlit("help-cpu-count");
    reveal_strlit("help-buffer-size");
    reveal_strlit("unit-bytes");
    reveal_strlit("unit-kilobytes");
    reveal_strlit("unit-megabytes");
    reveal_strlit("unit-gigabytes");
    reveal_strlit("unit-seconds");
    reveal_strlit("misc-in");
    reveal_strlit("misc-of");
    reveal_strlit("misc-average");
    reveal_strlit("misc-total");
    assert(id_signature(message_id_of(a)) == key_signature(a));
    assert(id_signature(message_id_of(b)) == key_signature(b));
}

/// The text shown for a message that the resource does not hold.
pub open spec fn missing_translation(msg_id: Seq<char>) -> Seq<char> {
    "[Missing translation: "@ + msg_id + "]"@
}

/// What `key` reads as in `locale`: its message in the locale's resource,
/// or the missing-translation text.
pub open spec fn translation_of(key: TranslationKey, locale: Seq<char>) -> Seq<char> {
    match fluent_message(locale, resource_for_locale(locale), message_id_of(key)) {
        Some(s) => s,
        None => missing_translation(message_id_of(key)),
    }
}

impl TranslationKey {
    /// Get the Fluent message ID for this key
    pub fn message_id(self) -> (id: &'static str)
        ensures
            id@ == message_id_of(self),
    {
        match self {
            TranslationKey::ProgressDiscovered => "progress-discovered",
            TranslationKey::ProgressCompleted => "progress-completed",
            TranslationKey::ProgressInFlight => "progress-in-flight",
            TranslationKey::ProgressComplete => "progress-complete",
            TranslationKey::ProgressFiles => "progress-files",
            TranslationKey::ProgressBytes => "progress-bytes",
            TranslationKey::ProgressSpeed => "progress-speed",
            TranslationKey::ProgressEta => "progress-eta",
            TranslationKey::StatusCopyingFile => "status-copying-file",
            TranslationKey::StatusCopyingDirectory => "status-copying-directory",
            TranslationKey::StatusCreatingSymlink => "status-creating-symlink",
            TranslationKey::StatusCreatingHardlink => "status-creating-hardlink",
            TranslationKey::StatusPreservingMetadata => "status-preserving-metadata",
            TranslationKey::StatusComplete => "status-complete",
            TranslationKey::StatusFailed => "status-failed",
            TranslationKey::ErrorFileNotFound => "error-file-not-found",
            TranslationKey::ErrorPermissionDenied => "error-permission-denied",
            TranslationKey::ErrorIoError => "error-io-error",
            TranslationKey::ErrorInvalidPath => "error-invalid-path",
            TranslationKey::ErrorSourceNotExists => "error-source-not-exists",
            TranslationKey::ErrorDestinationExists => "error-destination-exists",
            TranslationKey::InfoStartingCopy => "info-starting-copy",
            TranslationKey::InfoScanningSource => "info-scanning-source",
            TranslationKey::InfoCreatingDestination => "info-creating-destination",
            TranslationKey::InfoPreservingPermissions => "info-preserving-permissions",
            TranslationKey::InfoPreservingOwnership => "info-preserving-ownership",
            TranslationKey::InfoPreservingTimestamps => "info-preserving-timestamps",
            TranslationKey::InfoPreservingXattrs => "info-preserving-xattrs",
            TranslationKey::InfoPreservingAcls => "info-preserving-acls",
            TranslationKey::InfoDryRun => "info-dry-run",
            TranslationKey::HelpDescription => "help-description",
            TranslationKey::HelpSource => "help-source",
            TranslationKey::HelpDestination => "help-destination",
            TranslationKey::HelpArchive => "help-archive",
            TranslationKey::HelpRecursive => "help-recursive",
            TranslationKey::HelpLinks => "help-links",
            TranslationKey::HelpPerms => "help-perms",
            TranslationKey::HelpTimes => "help-times",
            TranslationKey::HelpGroup => "help-group",
            TranslationKey::HelpOwner => "help-owner",
            TranslationKey::HelpDevices => "help-devices",
            TranslationKey::HelpXattrs => "help-xattrs",
            TranslationKey::HelpAcls => "help-acls",
            TranslationKey::HelpHardLinks => "help-hard-links",
            TranslationKey::HelpVerbose => "help-verbose",
            TranslationKey::HelpQuiet => "help-quiet",
            TranslationKey::HelpProgress => "help-progress",
            TranslationKey::HelpDryRun => "help-dry-run",
            TranslationKey::HelpPirate => "help-pirate",
            TranslationKey::HelpQueueDepth => "help-queue-depth",
            TranslationKey::HelpMaxFilesInFlight => "help-max-files-in-flight",
            TranslationKey::HelpCpuCount => "help-cpu-count",
            TranslationKey::HelpBufferSize => "help-buffer-size",
            TranslationKey::UnitBytes => "unit-bytes",
            TranslationKey::UnitKilobytes => "unit-kilobytes",
            TranslationKey::UnitMegabytes => "unit-megabytes",
            TranslationKey::UnitGigabytes => "unit-gigabytes",
            TranslationKey::UnitSeconds => "unit-seconds",
            TranslationKey::MiscIn => "misc-in",
            TranslationKey::MiscOf => "misc-of",
            TranslationKey::MiscAverage => "misc-average",
            TranslationKey::MiscTotal => "misc-total",
        }
    }

    /// Get the translated string for this key in a specific language
    pub fn translate(self, locale: &str) -> (s: String)
        requires
            language_identifier_parses(locale@),
        ensures
            s@ == translation_of(self, locale@),
    {
        let ftl = get_ftl_for_locale(locale);
        let msg_id = self.message_id();
        match fluent_lookup(locale, ftl, msg_id) {
            Some(value) => value,
            None => {
                let mut s = String::from_str("[Missing translation: ");
                s.append(msg_id);
                s.append("]");
                s
            },
        }
    }

    /// Translate for a locale that may not be a valid language identifier:
    /// `None` when it is not one.
    pub fn try_translate(self, locale: &str) -> (r: Option<String>)
        ensures
            match r {
                Some(s) => language_identifier_parses(locale@) && s@ == translation_of(self, locale@),
                None => !language_identifier_parses(locale@),
            },
    {
        if parses_as_language_identifier(locale) {
            Some(self.translate(locale))
        } else {
            None
        }
    }

    /// Translate into a supported language.
    pub fn translate_to(self, lang: Language) -> (s: String)
        ensures
            s@ == translation_of(self, (match lang {
                Language::English => en_us(),
                Language::Pirate => pirate(),
            })),
    {
        let locale = lang.locale_id();
        // Both supported locales are valid identifiers; asking the parser
        // is what shows it here.
        let _parses = parses_as_language_identifier(locale);
        self.translate(locale)
    }
}

} // verus!
