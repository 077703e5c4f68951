use arsync::i18n::{I18nError, Language, LocaleSetting, TranslationKey};

const EN_US: &str = "en-US";
const EN_X_PIRATE: &str = "qaa";

#[test]
fn test_default_language_is_english() {
    let setting = LocaleSetting::new();
    assert_eq!(setting.get_language().unwrap(), Language::English);
}

#[test]
fn test_set_language_to_pirate() {
    let mut setting = LocaleSetting::new();
    setting.set_language(Language::Pirate);
    assert_eq!(setting.get_language().unwrap(), Language::Pirate);

    // Reset to English
    setting.set_language(Language::English);
    assert_eq!(setting.get_language().unwrap(), Language::English);
}

#[test]
fn test_translation_macro() {
    let mut setting = LocaleSetting::new();
    setting.set_language(Language::English);
    assert_eq!(setting.get(TranslationKey::ProgressDiscovered).unwrap(), "Discovered");

    setting.set_language(Language::Pirate);
    assert_eq!(
        setting.get(TranslationKey::ProgressDiscovered).unwrap(),
        "Treasure sighted on the horizon, ahoy"
    );

    // Reset
    setting.set_language(Language::English);
}

#[test]
fn test_english_translations() {
    let key = TranslationKey::ProgressDiscovered;
    assert_eq!(key.translate(EN_US), "Discovered");

    let key = TranslationKey::StatusComplete;
    assert_eq!(key.translate(EN_US), "Complete");
}

#[test]
fn test_pirate_translations() {
    let key = TranslationKey::ProgressDiscovered;
    assert_eq!(key.translate(EN_X_PIRATE), "Treasure sighted on the horizon, ahoy");

    let key = TranslationKey::StatusComplete;
    assert_eq!(
        key.translate(EN_X_PIRATE),
        "SHIVER ME TIMBERS! Mission complete! All treasure secured! Hoist the Jolly Roger! \u{1F3F4}\u{200D}\u{2620}\u{FE0F}"
    );
}

#[test]
fn test_locale_ids() {
    assert_eq!(Language::English.locale_id(), "en-US");
    assert_eq!(Language::Pirate.locale_id(), "qaa");
}

#[test]
fn message_ids_follow_the_fluent_names() {
    assert_eq!(TranslationKey::ProgressDiscovered.message_id(), "progress-discovered");
    assert_eq!(TranslationKey::HelpMaxFilesInFlight.message_id(), "help-max-files-in-flight");
    assert_eq!(TranslationKey::MiscTotal.message_id(), "misc-total");
    assert_eq!(TranslationKey::ErrorIoError.message_id(), "error-io-error");
}

#[test]
fn test_all_keys_have_both_translations() {
    // Test: Every translation key should have both English and Pirate versions
    // This is linked to the requirement: Complete translation coverage
    let keys = vec![
        TranslationKey::ProgressDiscovered,
        TranslationKey::ProgressCompleted,
        TranslationKey::StatusCopyingFile,
        TranslationKey::ErrorFileNotFound,
        TranslationKey::InfoStartingCopy,
        TranslationKey::HelpDescription,
    ];

    for key in keys {
        let english = key.translate(EN_US);
        let pirate = key.translate(EN_X_PIRATE);

        assert!(
            !english.contains("[Missing translation:"),
            "English translation for {:?} should not be missing",
            key
        );
        assert!(
            !pirate.contains("[Missing translation:"),
            "Pirate translation for {:?} should not be missing",
            key
        );
        assert_ne!(
            english, pirate,
            "English and Pirate translations should differ for {:?}",
            key
        );
    }
}

#[test]
fn every_key_reads_in_both_languages() {
    let keys = [
        TranslationKey::ProgressDiscovered,
        TranslationKey::ProgressCompleted,
        TranslationKey::ProgressInFlight,
        TranslationKey::ProgressComplete,
        TranslationKey::ProgressFiles,
        TranslationKey::ProgressBytes,
        TranslationKey::ProgressSpeed,
        TranslationKey::ProgressEta,
        TranslationKey::StatusCopyingFile,
        TranslationKey::StatusCopyingDirectory,
        TranslationKey::StatusCreatingSymlink,
        TranslationKey::StatusCreatingHardlink,
        TranslationKey::StatusPreservingMetadata,
        TranslationKey::StatusComplete,
        TranslationKey::StatusFailed,
        TranslationKey::ErrorFileNotFound,
        TranslationKey::ErrorPermissionDenied,
        TranslationKey::ErrorIoError,
        TranslationKey::ErrorInvalidPath,
        TranslationKey::ErrorSourceNotExists,
        TranslationKey::ErrorDestinationExists,
        TranslationKey::InfoStartingCopy,
        TranslationKey::InfoScanningSource,
        TranslationKey::InfoCreatingDestination,
        TranslationKey::InfoPreservingPermissions,
        TranslationKey::InfoPreservingOwnership,
        TranslationKey::InfoPreservingTimestamps,
        TranslationKey::InfoPreservingXattrs,
        TranslationKey::InfoPreservingAcls,
        TranslationKey::InfoDryRun,
        TranslationKey::HelpDescription,
        TranslationKey::HelpSource,
        TranslationKey::HelpDestination,
        TranslationKey::HelpArchive,
        TranslationKey::HelpRecursive,
        TranslationKey::HelpLinks,
        TranslationKey::HelpPerms,
        TranslationKey::HelpTimes,
        TranslationKey::HelpGroup,
        TranslationKey::HelpOwner,
        TranslationKey::HelpDevices,
        TranslationKey::HelpXattrs,
        TranslationKey::HelpAcls,
        TranslationKey::HelpHardLinks,
        TranslationKey::HelpVerbose,
        TranslationKey::HelpQuiet,
        TranslationKey::HelpProgress,
        TranslationKey::HelpDryRun,
        TranslationKey::HelpPirate,
        TranslationKey::HelpQueueDepth,
        TranslationKey::HelpMaxFilesInFlight,
        TranslationKey::HelpCpuCount,
        TranslationKey::HelpBufferSize,
        TranslationKey::UnitBytes,
        TranslationKey::UnitKilobytes,
        TranslationKey::UnitMegabytes,
        TranslationKey::UnitGigabytes,
        TranslationKey::UnitSeconds,
        TranslationKey::MiscIn,
        TranslationKey::MiscOf,
        TranslationKey::MiscAverage,
        TranslationKey::MiscTotal,
    ];
    for key in keys {
        let english = key.translate_to(Language::English);
        let pirate = key.translate_to(Language::Pirate);
        assert!(!english.is_empty() && !english.contains("[Missing translation:"), "{:?}", key);
        assert!(!pirate.is_empty() && !pirate.contains("[Missing translation:"), "{:?}", key);
        assert_ne!(english, pirate, "{:?}", key);
    }
    assert_eq!(TranslationKey::ProgressComplete.translate(EN_US), "Copy complete");
    assert_eq!(TranslationKey::MiscTotal.translate(EN_X_PIRATE), "the whole haul");
}

#[test]
fn other_locales_use_the_english_messages() {
    assert_eq!(TranslationKey::ProgressDiscovered.translate("fr-FR"), "Discovered");
    assert_eq!(TranslationKey::StatusComplete.translate_to(Language::English), "Complete");
}

#[test]
fn an_invalid_locale_is_not_translated() {
    assert_eq!(TranslationKey::ProgressDiscovered.try_translate("not a locale!"), None);
    assert_eq!(
        TranslationKey::ProgressDiscovered.try_translate("qaa"),
        Some("Treasure sighted on the horizon, ahoy".to_string())
    );
}

#[test]
fn language_from_locale() {
    assert_eq!(Language::from_locale("qaa"), Language::Pirate);
    assert_eq!(Language::from_locale("en-US"), Language::English);
    assert_eq!(Language::from_locale("de"), Language::English);
}

#[test]
fn i18n_error_messages() {
    assert_eq!(I18nError::LockPoisoned.message(), "locale lock is poisoned");
    assert_eq!(I18nError::LockUnavailable.message(), "failed to acquire locale lock");
}
