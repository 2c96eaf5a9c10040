#[test]
fn task_send_task() {}
