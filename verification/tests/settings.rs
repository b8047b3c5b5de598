use boatlog::failure::{failure_report, Failure};
use boatlog::settings::{Settings, Stored};

fn named(boat: &str) -> Settings {
    Settings { boat: Some(boat.to_string()) }
}

fn unnamed() -> Settings {
    Settings { boat: None }
}

#[test]
fn set_without_boat_keeps_stored_boat() {
    let stored = Stored::Found(named("Orca"));
    assert_eq!(boatlog::settings::set(&stored, &unnamed()), Ok(named("Orca")));
}

#[test]
fn set_without_boat_keeps_any_stored_value() {
    for boat in ["Orca", "", "Sea Breeze", "a.b", "Ålesund"] {
        let stored = Stored::Found(named(boat));
        assert_eq!(boatlog::settings::set(&stored, &unnamed()), Ok(named(boat)));
    }
    assert_eq!(boatlog::settings::set(&Stored::Found(unnamed()), &unnamed()), Ok(unnamed()));
}

#[test]
fn set_with_boat_replaces_stored_boat() {
    let stored = Stored::Found(named("Orca"));
    assert_eq!(boatlog::settings::set(&stored, &named("Beluga")), Ok(named("Beluga")));
    assert_eq!(boatlog::settings::set(&Stored::Found(unnamed()), &named("Beluga")), Ok(named("Beluga")));
}

#[test]
fn set_on_missing_settings_persists_update_verbatim() {
    assert_eq!(boatlog::settings::set(&Stored::Missing, &named("Orca")), Ok(named("Orca")));
    assert_eq!(boatlog::settings::set(&Stored::Missing, &unnamed()), Ok(unnamed()));
}

#[test]
fn set_on_unreadable_settings_fails() {
    assert_eq!(boatlog::settings::set(&Stored::Unreadable, &named("Orca")), Err(Failure::UnreadableSettings));
    assert_eq!(boatlog::settings::set(&Stored::Unreadable, &unnamed()), Err(Failure::UnreadableSettings));
}

#[test]
fn set_twice_with_same_update_is_stable() {
    let once = boatlog::settings::set(&Stored::Found(named("Orca")), &named("Beluga")).unwrap();
    let twice = boatlog::settings::set(&Stored::Found(once.duplicate()), &named("Beluga")).unwrap();
    assert_eq!(once, twice);
}

#[test]
fn merge_is_field_by_field() {
    assert_eq!(named("Orca").merge(&unnamed()), named("Orca"));
    assert_eq!(named("Orca").merge(&named("Beluga")), named("Beluga"));
    assert_eq!(unnamed().merge(&named("Beluga")), named("Beluga"));
    assert_eq!(unnamed().merge(&unnamed()), unnamed());
}

#[test]
fn duplicate_is_equal() {
    assert_eq!(named("Orca").duplicate(), named("Orca"));
    assert_eq!(unnamed().duplicate(), unnamed());
}

#[test]
fn failure_messages() {
    assert_eq!(Failure::NoBoat.message(), "No boat is set!, use set -b to set a boat");
    assert_eq!(Failure::UnreadableSettings.message(), "the settings could not be read");
    assert_eq!(
        Failure::NoTimestamp.message(),
        "the date and time make no timestamp in this time zone"
    );
}

#[test]
fn failure_report_names_command_and_reason() {
    assert_eq!(
        failure_report("Set(Settings { boat: None })", "no such file"),
        "Failed to Set(Settings { boat: None }): no such file"
    );
    assert_eq!(failure_report("", ""), "Failed to : ");
}
