use oysterpack::testing::{run_test, Id};

#[test]
fn id_test() {
    run_test(|| {
        let id = Id(1);
        let id: u128 = *id;
        match id {
            1 => println!("id_test(): MATCHED"),
            _ => panic!("id_test() did not match"),
        }

        let id: Id = 1.into();
        assert_eq!(id.id(), 1);
    });
}

#[test]
fn tests_compiles() {
    run_test(|| println!("it compiles :)"));
}

#[test]
fn core_id_renders_lower_hex() {
    assert_eq!(Id(255).to_string(), "ff");
    assert_eq!(Id(1867384532653698871582487715619812439).to_string(), format!("{:x}", 1867384532653698871582487715619812439u128));
}
