use chrono::Utc;
use krabby_do::instant::Timestamp;
use krabby_do::todo::ToDo;

#[test]
fn middlewarelib_test_add_task() {
    let task_name = String::from("Complete project");
    let task_desc = String::from("Finish the remaining tasks and submit the project");
    let now = Utc::now();
    let reminder_time = Timestamp::new(now.timestamp(), now.timestamp_subsec_nanos());

    let todo = ToDo::new(task_name, task_desc, reminder_time);
    println!("{}", todo.add_task());
}

#[test]
fn a_task_keeps_what_it_was_given() {
    let todo = ToDo::new(
        String::from("Complete project"),
        String::from("Finish the remaining tasks and submit the project"),
        Timestamp::new(1_704_877_200, 0),
    );
    assert_eq!(todo.task_name, "Complete project");
    assert_eq!(todo.task_desc, "Finish the remaining tasks and submit the project");
    assert_eq!(todo.reminder_time, Timestamp::new(1_704_877_200, 0));
    let copy = todo.clone();
    assert_eq!(copy.task_name, todo.task_name);
    assert_eq!(copy.task_desc, todo.task_desc);
    assert_eq!(copy.reminder_time, todo.reminder_time);
}

#[test]
fn report_lines() {
    let todo = ToDo::new(String::new(), String::new(), Timestamp::new(0, 0));
    assert_eq!(todo.add_task(), "task added to mongoDB");
    assert_eq!(todo.update_task(), "task updated !");
    assert_eq!(todo.delete_or_mark_completed(), "task Completed !");
}
