use carrion_eris::command::Command;

#[test]
fn create_a_command() {
    let h = Command::new("This is a help command", "-h", || println!("Help"));
    h.execute();
    let help = Command::new_const("This is a help command", "-h", || println!("Help"));
    help.execute()
}

#[test]
fn commands_run_their_program_each_time() {
    let counter = std::cell::Cell::new(0);
    let c = Command::new("Counts", "count", || counter.set(counter.get() + 1));
    c.execute();
    c.execute();
    assert_eq!(counter.get(), 2);
}
