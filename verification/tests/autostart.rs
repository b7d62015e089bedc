use joymapper::autostart::{
    create_outcome, create_task_args, delete_outcome, delete_task_args, must_reregister,
    query_task_args, task_exe_from_listing, task_xml, unquoted, TASK_NAME,
};

#[test]
fn task_definition_runs_the_program_at_logon() {
    let xml = task_xml("C:\\Apps\\joymapper.exe");
    assert!(xml.starts_with("<?xml version=\"1.0\" encoding=\"UTF-16\"?>\n<Task version=\"1.2\""));
    assert!(xml.contains("<LogonTrigger>\n      <Enabled>true</Enabled>\n      <Delay>PT10S</Delay>"));
    assert!(xml.contains("<RunLevel>HighestAvailable</RunLevel>"));
    assert!(xml.contains("<ExecutionTimeLimit>PT0S</ExecutionTimeLimit>"));
    assert!(xml.ends_with(
        "<Command>\"C:\\Apps\\joymapper.exe\"</Command>\n    </Exec>\n  </Actions>\n</Task>"
    ));
}

#[test]
fn scheduler_arguments() {
    assert_eq!(TASK_NAME, "JoyMapperRust");
    assert_eq!(
        create_task_args("C:\\Temp\\joymapper_task.xml"),
        vec!["/Create", "/TN", "JoyMapperRust", "/XML", "C:\\Temp\\joymapper_task.xml", "/F"]
    );
    assert_eq!(delete_task_args(), vec!["/Delete", "/TN", "JoyMapperRust", "/F"]);
    assert_eq!(query_task_args(false), vec!["/Query", "/TN", "JoyMapperRust"]);
    assert_eq!(
        query_task_args(true),
        vec!["/Query", "/TN", "JoyMapperRust", "/FO", "LIST"]
    );
}

#[test]
fn failed_registration_quotes_both_outputs() {
    assert_eq!(create_outcome(true, "ignored", "ignored"), Ok(()));
    assert_eq!(
        create_outcome(false, "ERROR: Access is denied.", ""),
        Err("schtasks create error: ERROR: Access is denied. | ".to_string())
    );
}

#[test]
fn deleting_a_missing_task_is_no_error() {
    assert_eq!(delete_outcome(true, ""), Ok(()));
    assert_eq!(
        delete_outcome(false, "ERROR: The system cannot find the file specified."),
        Ok(())
    );
    assert_eq!(delete_outcome(false, "ERROR: The task does not exist."), Ok(()));
    assert_eq!(
        delete_outcome(false, "ERROR: Access is denied."),
        Err("schtasks delete error: ERROR: Access is denied.".to_string())
    );
    // The match is case-sensitive.
    assert_eq!(
        delete_outcome(false, "Cannot Find it"),
        Err("schtasks delete error: Cannot Find it".to_string())
    );
}

#[test]
fn listing_names_the_program() {
    let listing = "\r\nFolder: \\\r\nHostName:      PC\r\nTaskName:      \\JoyMapperRust\r\n    Task To Run:   \"C:\\Apps\\joymapper.exe\"  \r\nStatus: Ready\r\n";
    assert_eq!(
        task_exe_from_listing(listing),
        Some("\"C:\\Apps\\joymapper.exe\"".to_string())
    );
}

#[test]
fn listing_without_a_program_names_nothing() {
    assert_eq!(task_exe_from_listing(""), None);
    assert_eq!(task_exe_from_listing("Task To Run:   \nStatus: Ready"), None);
    assert_eq!(task_exe_from_listing("Status: Task To Run: x.exe"), None);
    // The first line with a path wins.
    assert_eq!(
        task_exe_from_listing("Task To Run:\nTask To Run: a.exe\nTask To Run: b.exe"),
        Some("a.exe".to_string())
    );
}

#[test]
fn quotes_are_stripped_from_both_ends() {
    assert_eq!(unquoted("\"C:\\a b\\x.exe\""), "C:\\a b\\x.exe");
    assert_eq!(unquoted("\"\"x\"\"\""), "x");
    assert_eq!(unquoted("x\"y"), "x\"y");
    assert_eq!(unquoted("\"\"\""), "");
    assert_eq!(unquoted(""), "");
}

#[test]
fn reregistering_depends_on_the_listed_program() {
    assert!(must_reregister(None, "C:\\Apps\\joymapper.exe"));
    assert!(!must_reregister(
        Some("\"C:\\Apps\\joymapper.exe\"".to_string()),
        "C:\\Apps\\joymapper.exe"
    ));
    assert!(must_reregister(
        Some("\"C:\\Old\\joymapper.exe\"".to_string()),
        "C:\\Apps\\joymapper.exe"
    ));
}
