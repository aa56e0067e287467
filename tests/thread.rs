use daily_scry::thread::{PublishStep, ThreadPublisher};

fn bodies(n: usize) -> Vec<String> {
    (0..n).map(|i| format!("chunk {}", i)).collect()
}

#[test]
fn thread_posts_root_then_chained_replies() {
    let mut publisher = ThreadPublisher::new(bodies(3));
    let mut calls = vec![];
    let mut next_id = 100;
    loop {
        match publisher.next_step() {
            PublishStep::PostRoot { body } => calls.push(format!("root {}", body)),
            PublishStep::PostReply { body, parent } => calls.push(format!("reply {} to {}", body, parent)),
            PublishStep::Finished => break,
            PublishStep::Aborted => panic!("no call failed"),
        }
        publisher.record_posted(format!("id{}", next_id));
        next_id += 1;
    }
    assert_eq!(
        calls,
        vec!["root chunk 0", "reply chunk 1 to id100", "reply chunk 2 to id101"]
    );
    assert_eq!(publisher.post_ids(), vec!["id100", "id101", "id102"]);
}

#[test]
fn single_chunk_thread_is_one_root_post() {
    let mut publisher = ThreadPublisher::new(bodies(1));
    assert!(matches!(publisher.next_step(), PublishStep::PostRoot { body } if body == "chunk 0"));
    publisher.record_posted("only".to_owned());
    assert!(matches!(publisher.next_step(), PublishStep::Finished));
    publisher.record_posted("ignored".to_owned());
    assert_eq!(publisher.post_ids(), vec!["only"]);
}

#[test]
fn failure_aborts_the_rest_and_keeps_the_partial_thread() {
    let mut publisher = ThreadPublisher::new(bodies(3));
    publisher.record_posted("root".to_owned());
    publisher.record_failure();
    assert!(matches!(publisher.next_step(), PublishStep::Aborted));
    publisher.record_posted("late".to_owned());
    assert_eq!(publisher.post_ids(), vec!["root"]);
}

#[test]
fn empty_plan_is_finished_at_once() {
    let publisher = ThreadPublisher::new(vec![]);
    assert!(matches!(publisher.next_step(), PublishStep::Finished));
}
