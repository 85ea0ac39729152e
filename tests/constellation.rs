use keplemon::constellation::Constellation;

#[test]
fn roster_add_get_remove() {
    let mut c: Constellation<&str> = Constellation::new();
    assert_eq!(c.get_count(), 0);
    assert_eq!(c.get_name(), None);
    c.add(25544, "ISS");
    c.add(20580, "HST");
    assert_eq!(c.get_count(), 2);
    assert_eq!(c.get(25544), Some(&"ISS"));
    c.add(25544, "ZARYA");
    assert_eq!(c.get_count(), 2);
    assert_eq!(c.get(25544), Some(&"ZARYA"));
    c.remove(20580);
    assert_eq!(c.get(20580), None);
    assert_eq!(c.get_count(), 1);
    c.remove(1);
    assert_eq!(c.get_count(), 1);
    assert_eq!(c.satellites().len(), 1);
    c.clear();
    assert_eq!(c.get_count(), 0);
}

#[test]
fn roster_name() {
    let mut c: Constellation<u8> = Constellation::new();
    c.set_name(Some("catalog".to_string()));
    assert_eq!(c.get_name(), Some("catalog".to_string()));
    c.add(1, 1);
    assert_eq!(c.get_name(), Some("catalog".to_string()));
    c.set_name(None);
    assert_eq!(c.get_name(), None);
}
