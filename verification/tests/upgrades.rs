use rsbwapi::bwapi_wrapper::race::Race;
use rsbwapi::bwapi_wrapper::unit_type::UnitType;
use rsbwapi::bwapi_wrapper::upgrade_type::UpgradeType;

#[test]
fn upgrade_table_rows() {
    let u = UpgradeType::Terran_Infantry_Armor;
    assert_eq!(u.name(), "Terran_Infantry_Armor");
    assert_eq!(u.mineral_price(), 100);
    assert_eq!(u.gas_price(), 100);
    assert_eq!(u.mineral_price_factor(), 75);
    assert_eq!(u.gas_price_factor(), 75);
    assert_eq!(u.upgrade_time(), 4000);
    assert_eq!(u.upgrade_time_factor(), 480);
    assert_eq!(u.max_repeats(), 3);
    assert_eq!(u.what_upgrades(), UnitType::Terran_Engineering_Bay);
    assert_eq!(u.whats_required(), UnitType::NoneType);
    assert_eq!(u.get_race(), Race::Terran);
    assert_eq!(u.what_uses().len(), 11);
    assert_eq!(u.what_uses()[0], UnitType::Terran_Marine);
    assert_eq!(UpgradeType::Zerg_Carapace.name(), "Zerg_Carapace");
    assert_eq!(UpgradeType::Zerg_Carapace.get_race(), Race::Zerg);
}

#[test]
fn upgrade_prices_by_level() {
    let u = UpgradeType::Terran_Ship_Plating;
    assert_eq!(u.mineral_price_at_level(1), 150);
    assert_eq!(u.mineral_price_at_level(2), 225);
    assert_eq!(u.mineral_price_at_level(3), 300);
    assert_eq!(u.mineral_price_at_level(0), 150);
    assert_eq!(u.gas_price_at_level(3), 300);
    assert_eq!(u.upgrade_time_at_level(1), 4000);
    assert_eq!(u.upgrade_time_at_level(3), 4960);
}

#[test]
fn upgrade_requirements_by_level() {
    let u = UpgradeType::Terran_Infantry_Armor;
    assert_eq!(u.whats_required_at_level(1), UnitType::NoneType);
    assert_eq!(u.whats_required_at_level(2), UnitType::Terran_Science_Facility);
    assert_eq!(u.whats_required_at_level(3), UnitType::Terran_Science_Facility);
    assert_eq!(u.whats_required_at_level(4), UnitType::NoneType);
    assert_eq!(UpgradeType::Zerg_Carapace.whats_required_at_level(3), UnitType::Zerg_Hive);
    assert_eq!(UpgradeType::MAX.whats_required_at_level(0), UnitType::NoneType);
}
