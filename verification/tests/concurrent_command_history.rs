use command_history::command::Command;
use command_history::command_history::CommandHistory;
use command_history::concurrent_command_history::ConcurrentCommandHistory;
use rand::Rng;
use std::cmp::min;
use std::sync::Mutex;

#[derive(Debug)]
enum TestOperation {
    Increment(i32),
    Decrement(i32),
}

struct TestArcCommand {
    operation: TestOperation,
}

struct TestArcContext {
    value: i32,
}

impl Command for TestArcCommand {
    type Context = Mutex<TestArcContext>;

    fn execute(&self, ctx: &Self::Context) {
        let mut ctx = ctx.lock().unwrap();
        match self.operation {
            TestOperation::Increment(value) => ctx.value += value,
            TestOperation::Decrement(value) => ctx.value -= value,
        }
    }

    fn undo(&self, ctx: &Self::Context) {
        let mut ctx = ctx.lock().unwrap();
        match self.operation {
            TestOperation::Increment(value) => ctx.value -= value,
            TestOperation::Decrement(value) => ctx.value += value,
        }
    }

    fn description(&self) -> String {
        match self.operation {
            TestOperation::Increment(value) => {
                format!("TestArcCommand: Increment({value})")
            }
            TestOperation::Decrement(value) => {
                format!("TestArcCommand: Decrement({value})")
            }
        }
    }
}

fn undo_len(history: &ConcurrentCommandHistory<TestArcCommand>) -> usize {
    history.undo_history().map_or(0, |v| v.len())
}

fn redo_len(history: &ConcurrentCommandHistory<TestArcCommand>) -> usize {
    history.redo_history().map_or(0, |v| v.len())
}

#[test]
fn test_arc_command() {
    let history = ConcurrentCommandHistory::new(5, true);
    let ctx = Mutex::new(TestArcContext { value: 0 });
    let command = TestArcCommand {
        operation: TestOperation::Increment(1),
    };

    history.execute_command(command, &ctx);
    assert_eq!(ctx.lock().unwrap().value, 1);

    history.undo(&ctx);
    assert_eq!(ctx.lock().unwrap().value, 0);

    history.redo(&ctx);
    assert_eq!(ctx.lock().unwrap().value, 1);
}

#[test]
fn test_arc_max_size() {
    let history = ConcurrentCommandHistory::new(2, true);
    let ctx = Mutex::new(TestArcContext { value: 0 });
    let command1 = TestArcCommand {
        operation: TestOperation::Increment(1),
    };
    let command2 = TestArcCommand {
        operation: TestOperation::Increment(2),
    };
    let command3 = TestArcCommand {
        operation: TestOperation::Increment(3),
    };

    history.execute_command(command1, &ctx);
    assert_eq!(ctx.lock().unwrap().value, 1);
    assert_eq!(undo_len(&history), 1);
    assert!(history.redo_history().is_none());

    history.execute_command(command2, &ctx);
    assert_eq!(ctx.lock().unwrap().value, 3);
    assert_eq!(undo_len(&history), 2);
    assert!(history.redo_history().is_none());

    history.execute_command(command3, &ctx);

    assert_eq!(ctx.lock().unwrap().value, 6);
    assert_eq!(undo_len(&history), 2);
    assert!(history.redo_history().is_none());
}

#[test]
fn test_arc_batch() {
    let size = rand::thread_rng().gen_range(10..40);
    let history = ConcurrentCommandHistory::new(35, true);
    let ctx = Mutex::new(TestArcContext { value: 0 });

    let mut expected_sum = 0;
    let commands: Vec<_> = (0..size)
        .map(|i| {
            let value = rand::thread_rng().gen_range(1..10);

            let increment = i % 2 == 0;
            if increment {
                expected_sum += value;
                TestArcCommand {
                    operation: TestOperation::Increment(value),
                }
            } else {
                expected_sum -= value;
                TestArcCommand {
                    operation: TestOperation::Decrement(value),
                }
            }
        })
        .collect();

    history.batch_execute(commands, &ctx);

    assert_eq!(ctx.lock().unwrap().value, expected_sum);
    assert_eq!(undo_len(&history), min(size as usize, 35));
}

#[test]
fn test_arc_set_history_limit() {
    let history = ConcurrentCommandHistory::new(2, true);
    let ctx = Mutex::new(TestArcContext { value: 0 });
    let command1 = TestArcCommand {
        operation: TestOperation::Increment(1),
    };
    let command2 = TestArcCommand {
        operation: TestOperation::Increment(2),
    };
    let command3 = TestArcCommand {
        operation: TestOperation::Increment(3),
    };

    history.execute_command(command1, &ctx);
    assert_eq!(ctx.lock().unwrap().value, 1);
    assert_eq!(undo_len(&history), 1);
    assert!(history.redo_history().is_none());

    history.execute_command(command2, &ctx);
    assert_eq!(ctx.lock().unwrap().value, 3);
    assert_eq!(undo_len(&history), 2);
    assert!(history.redo_history().is_none());

    history.execute_command(command3, &ctx);
    assert_eq!(ctx.lock().unwrap().value, 6);
    assert_eq!(undo_len(&history), 2);
    assert!(history.redo_history().is_none());

    history.set_history_limit(1);
    assert_eq!(undo_len(&history), 1);
    assert!(history.redo_history().is_none());
}

#[test]
fn test_command_clears_redo() {
    let history = ConcurrentCommandHistory::new(5, true);
    let ctx = Mutex::new(TestArcContext { value: 0 });
    let command = TestArcCommand {
        operation: TestOperation::Increment(1),
    };
    let command2 = TestArcCommand {
        operation: TestOperation::Increment(1),
    };

    history.execute_command(command, &ctx);
    assert_eq!(ctx.lock().unwrap().value, 1);
    assert_eq!(undo_len(&history), 1);
    assert!(history.redo_history().is_none());

    history.undo(&ctx);
    assert_eq!(ctx.lock().unwrap().value, 0);
    assert!(history.undo_history().is_none());
    assert_eq!(redo_len(&history), 1);

    history.execute_command(command2, &ctx);
    assert_eq!(ctx.lock().unwrap().value, 1);
    assert_eq!(undo_len(&history), 1);
    assert!(history.redo_history().is_none());
}

#[test]
fn test_command_dont_clears_redo() {
    let history = ConcurrentCommandHistory::new(5, false);
    let ctx = Mutex::new(TestArcContext { value: 0 });
    let command = TestArcCommand {
        operation: TestOperation::Increment(1),
    };
    let command2 = TestArcCommand {
        operation: TestOperation::Increment(1),
    };

    history.execute_command(command, &ctx);
    assert_eq!(ctx.lock().unwrap().value, 1);
    assert_eq!(undo_len(&history), 1);
    assert!(history.redo_history().is_none());

    history.undo(&ctx);
    assert_eq!(ctx.lock().unwrap().value, 0);
    assert!(history.undo_history().is_none());
    assert_eq!(redo_len(&history), 1);

    history.execute_command(command2, &ctx);
    assert_eq!(ctx.lock().unwrap().value, 1);
    assert_eq!(undo_len(&history), 1);
    assert_eq!(redo_len(&history), 1);
}

#[test]
fn concurrent_command_history_test_undo_history() {
    let history = ConcurrentCommandHistory::new(5, true);
    let ctx = Mutex::new(TestArcContext { value: 0 });
    let command1 = TestArcCommand {
        operation: TestOperation::Increment(1),
    };
    let command2 = TestArcCommand {
        operation: TestOperation::Increment(2),
    };

    history.execute_command(command1, &ctx);
    history.execute_command(command2, &ctx);

    let undo_history = history.undo_history().unwrap();
    assert_eq!(undo_history.len(), 2);
    assert_eq!(
        undo_history[0].description(),
        "TestArcCommand: Increment(2)"
    );
    assert_eq!(
        undo_history[1].description(),
        "TestArcCommand: Increment(1)"
    );
}

#[test]
fn concurrent_command_history_test_redo_history() {
    let history = ConcurrentCommandHistory::new(5, true);
    let ctx = Mutex::new(TestArcContext { value: 0 });
    let command1 = TestArcCommand {
        operation: TestOperation::Increment(1),
    };
    let command2 = TestArcCommand {
        operation: TestOperation::Increment(2),
    };

    history.execute_command(command1, &ctx);
    history.execute_command(command2, &ctx);
    history.undo(&ctx);
    history.undo(&ctx);

    let redo_history = history.redo_history().unwrap();
    assert_eq!(redo_history.len(), 2);
    assert_eq!(
        redo_history[0].description(),
        "TestArcCommand: Increment(1)"
    );
    assert_eq!(
        redo_history[1].description(),
        "TestArcCommand: Increment(2)"
    );
}
