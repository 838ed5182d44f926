use serde_gelf::GelfLevel;

#[test]
fn level_of_each_ordinal() {
    assert_eq!(GelfLevel::from(0u32), GelfLevel::Emergency);
    assert_eq!(GelfLevel::from(1u32), GelfLevel::Alert);
    assert_eq!(GelfLevel::from(2u32), GelfLevel::Critical);
    assert_eq!(GelfLevel::from(3u32), GelfLevel::Error);
    assert_eq!(GelfLevel::from(4u32), GelfLevel::Warning);
    assert_eq!(GelfLevel::from(5u32), GelfLevel::Notice);
    assert_eq!(GelfLevel::from(6u32), GelfLevel::Informational);
    assert_eq!(GelfLevel::from(7u32), GelfLevel::Debugging);
}

#[test]
fn ordinal_outside_the_table_is_alert() {
    assert_eq!(GelfLevel::from(9u32), GelfLevel::Alert);
    assert_eq!(GelfLevel::from(8u32), GelfLevel::Alert);
    assert_eq!(GelfLevel::from(u32::MAX), GelfLevel::Alert);
}

#[test]
fn ordinals_of_the_levels() {
    let levels = [
        GelfLevel::Emergency,
        GelfLevel::Alert,
        GelfLevel::Critical,
        GelfLevel::Error,
        GelfLevel::Warning,
        GelfLevel::Notice,
        GelfLevel::Informational,
        GelfLevel::Debugging,
    ];
    for (ordinal, level) in levels.iter().enumerate() {
        assert_eq!(level.ordinal() as usize, ordinal);
        assert_eq!(GelfLevel::from(level.ordinal()), *level);
    }
}

#[test]
fn default_level_is_alert() {
    assert_eq!(GelfLevel::default(), GelfLevel::Alert);
    assert_eq!(GelfLevel::default().ordinal(), 1);
}

#[test]
fn names_of_the_levels() {
    assert_eq!(String::from(GelfLevel::Emergency), "Emergency");
    assert_eq!(String::from(GelfLevel::Alert), "Alert");
    assert_eq!(String::from(GelfLevel::Critical), "Critical");
    assert_eq!(String::from(GelfLevel::Error), "Error");
    assert_eq!(String::from(GelfLevel::Warning), "Warning");
    assert_eq!(String::from(GelfLevel::Notice), "Notice");
    assert_eq!(String::from(GelfLevel::Informational), "Informational");
    assert_eq!(String::from(GelfLevel::Debugging), "Debugging");
    assert_eq!(GelfLevel::Notice.name(), "Notice");
}

#[test]
fn log_levels_are_recorded() {
    assert_eq!(GelfLevel::from(log::Level::Trace), GelfLevel::Debugging);
    assert_eq!(GelfLevel::from(log::Level::Debug), GelfLevel::Debugging);
    assert_eq!(GelfLevel::from(log::Level::Info), GelfLevel::Informational);
    assert_eq!(GelfLevel::from(log::Level::Warn), GelfLevel::Warning);
    assert_eq!(GelfLevel::from(log::Level::Error), GelfLevel::Error);
}

#[test]
fn levels_are_reported_to_the_log() {
    assert_eq!(log::Level::from(&GelfLevel::Debugging), log::Level::Debug);
    assert_eq!(log::Level::from(&GelfLevel::Informational), log::Level::Info);
    assert_eq!(log::Level::from(&GelfLevel::Warning), log::Level::Warn);
    assert_eq!(log::Level::from(&GelfLevel::Error), log::Level::Error);
    assert_eq!(log::Level::from(&GelfLevel::Emergency), log::Level::Error);
    assert_eq!(log::Level::from(&GelfLevel::Alert), log::Level::Error);
    assert_eq!(log::Level::from(&GelfLevel::Critical), log::Level::Error);
    assert_eq!(log::Level::from(&GelfLevel::Notice), log::Level::Error);
}

#[test]
fn log_levels_round_trip() {
    assert_eq!(log::Level::from(&GelfLevel::from(log::Level::Debug)), log::Level::Debug);
    assert_eq!(log::Level::from(&GelfLevel::from(log::Level::Error)), log::Level::Error);
    assert_eq!(log::Level::from(&GelfLevel::from(log::Level::Info)), log::Level::Info);
    assert_eq!(log::Level::from(&GelfLevel::from(log::Level::Warn)), log::Level::Warn);
    assert_eq!(log::Level::from(&GelfLevel::from(log::Level::Trace)), log::Level::Debug);
}

#[test]
fn levels_are_ordered_by_ordinal() {
    assert!(GelfLevel::Emergency < GelfLevel::Alert);
    assert!(GelfLevel::Alert < GelfLevel::Critical);
    assert!(GelfLevel::Critical < GelfLevel::Error);
    assert!(GelfLevel::Error < GelfLevel::Warning);
    assert!(GelfLevel::Warning < GelfLevel::Notice);
    assert!(GelfLevel::Notice < GelfLevel::Informational);
    assert!(GelfLevel::Informational < GelfLevel::Debugging);
    assert!(GelfLevel::Debugging > GelfLevel::Emergency);
    assert!(GelfLevel::Error <= GelfLevel::Error);
    for low in 0..8u32 {
        for high in 0..8u32 {
            assert_eq!(GelfLevel::from(low) < GelfLevel::from(high), low < high);
        }
    }
}
