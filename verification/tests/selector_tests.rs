use conformity::selector::TestSelector;

#[test]
fn all_tests_in_declaration_order() {
    assert_eq!(
        TestSelector::all(),
        vec![
            TestSelector::Sanity_Pin,
            TestSelector::I2C_SimpleRead,
            TestSelector::I2C_SimpleWrite,
            TestSelector::I2C_MultiWrite,
            TestSelector::I2C_AddressNAK,
            TestSelector::I2C_DataNAK,
        ]
    );
}

#[test]
fn every_test_listed_once() {
    let all = TestSelector::all();
    for t in &all {
        assert_eq!(all.iter().filter(|u| *u == t).count(), 1);
        assert_eq!(all[t.index()], *t);
    }
}

#[test]
fn test_names() {
    assert_eq!(TestSelector::Sanity_Pin.name(), "Sanity_Pin");
    assert_eq!(TestSelector::I2C_SimpleRead.name(), "I2C_SimpleRead");
    assert_eq!(TestSelector::I2C_SimpleWrite.name(), "I2C_SimpleWrite");
    assert_eq!(TestSelector::I2C_MultiWrite.name(), "I2C_MultiWrite");
    assert_eq!(TestSelector::I2C_AddressNAK.name(), "I2C_AddressNAK");
    assert_eq!(TestSelector::I2C_DataNAK.name(), "I2C_DataNAK");
}
