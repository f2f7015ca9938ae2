use init_packages::{
    Access, ArgumentFault, Error, InitTask, InitTaskMessage, JsInitTask, JsPyInitTaskMessage,
    MessageTarget, PackageType, PyInitTask, StartMessage, TargetedTaskMessage, TaskSharedStore,
};

fn js_task(source: &str) -> InitTask {
    InitTask::JsInitTask(JsInitTask { initial_state_source: source.to_string() })
}

fn py_task(source: &str) -> InitTask {
    InitTask::PyInitTask(PyInitTask { initial_state_source: source.to_string() })
}

fn start(target: MessageTarget, source: &str) -> TargetedTaskMessage {
    TargetedTaskMessage {
        target,
        payload: InitTaskMessage::JsPyInitTaskMessage(JsPyInitTaskMessage::StartMessage(
            StartMessage { initial_state_source: source.to_string() },
        )),
    }
}

fn requests() -> [TaskSharedStore; 4] {
    [
        TaskSharedStore::new(Access::Disabled, Access::Disabled),
        TaskSharedStore::new(Access::Enabled, Access::Disabled),
        TaskSharedStore::new(Access::Disabled, Access::Enabled),
        TaskSharedStore::new(Access::Enabled, Access::Enabled),
    ]
}

#[test]
fn task_names_are_constant_and_not_empty() {
    assert_eq!(js_task("a").get_task_name(), "JsInit");
    assert_eq!(js_task("").get_task_name(), "JsInit");
    assert_eq!(py_task("b").get_task_name(), "PyInit");
    assert_eq!(JsInitTask { initial_state_source: String::new() }.get_task_name(), "JsInit");
    assert_eq!(PyInitTask { initial_state_source: String::new() }.get_task_name(), "PyInit");
    assert!(!js_task("a").get_task_name().is_empty());
    assert!(!py_task("a").get_task_name().is_empty());
}

#[test]
fn start_message_is_addressed_to_the_runtime_of_the_task() {
    let source = "const init = () => [];";
    assert_eq!(js_task(source).start_message(), Ok(start(MessageTarget::JavaScript, source)));
    assert_eq!(py_task(source).start_message(), Ok(start(MessageTarget::Python, source)));
}

#[test]
fn start_message_of_the_variants_themselves() {
    let task = JsInitTask { initial_state_source: "x".to_string() };
    assert_eq!(task.start_message(), Ok(start(MessageTarget::JavaScript, "x")));
    let task = PyInitTask { initial_state_source: "y".to_string() };
    assert_eq!(task.start_message(), Ok(start(MessageTarget::Python, "y")));
}

#[test]
fn start_message_needs_a_source() {
    let missing = Err(Error::TaskArgument(ArgumentFault::MissingInitialStateSource));
    assert_eq!(js_task("").start_message(), missing);
    assert_eq!(py_task("").start_message(), missing);
}

#[test]
fn start_message_keeps_the_source_unchanged() {
    let source = "def init():\n    return [{\"é\": 1}]\n";
    match py_task(source).start_message() {
        Ok(TargetedTaskMessage {
            payload:
                InitTaskMessage::JsPyInitTaskMessage(JsPyInitTaskMessage::StartMessage(message)),
            ..
        }) => assert_eq!(message.initial_state_source, source),
        other => panic!("no start message: {:?}", other),
    }
}

#[test]
fn access_is_allowed_only_where_nothing_is_asked() {
    for task in [js_task("a"), py_task("a"), js_task("")] {
        for request in requests() {
            let verdict = task.verify_store_access(&request);
            if request.state == Access::Disabled && request.context == Access::Disabled {
                assert_eq!(verdict, Ok(()));
            } else {
                assert_eq!(
                    verdict,
                    Err(Error::AccessNotAllowed { store: request, category: PackageType::Init })
                );
            }
        }
    }
}

#[test]
fn denied_access_carries_the_request_as_it_was_made() {
    let request = TaskSharedStore::new(Access::Enabled, Access::Disabled);
    match js_task("a").verify_store_access(&request) {
        Err(Error::AccessNotAllowed { store, category }) => {
            assert_eq!(store.state, Access::Enabled);
            assert_eq!(*store.context(), Access::Disabled);
            assert_eq!(category.as_str(), "Init");
        }
        other => panic!("access was not denied: {:?}", other),
    }
}

#[test]
fn access_flags() {
    assert!(Access::Disabled.is_disabled());
    assert!(!Access::Enabled.is_disabled());
    let request = TaskSharedStore::new(Access::Enabled, Access::Disabled);
    assert_eq!(request.state, Access::Enabled);
    assert_eq!(request.context, Access::Disabled);
    assert_eq!(*request.context(), Access::Disabled);
}

#[test]
fn scenario_context_enabled_is_denied_after_start_message() {
    let task = js_task("const init = () => [];");
    assert!(task.start_message().is_ok());
    let request = TaskSharedStore::new(Access::Disabled, Access::Enabled);
    let verdict = task.verify_store_access(&request);
    match verdict {
        Err(Error::AccessNotAllowed { store, category }) => {
            assert_eq!(store, request);
            assert_eq!(category, PackageType::Init);
            assert_eq!(category.as_str(), "Init");
        }
        other => panic!("access was not denied: {:?}", other),
    }
    let mut sent_to_pool: Vec<TargetedTaskMessage> = Vec::new();
    if let Ok(message) = task.handoff(&request) {
        sent_to_pool.push(message);
    }
    assert!(sent_to_pool.is_empty());
}

#[test]
fn handoff_yields_the_start_message_when_both_checks_pass() {
    let nothing = TaskSharedStore::new(Access::Disabled, Access::Disabled);
    assert_eq!(js_task("s").handoff(&nothing), Ok(start(MessageTarget::JavaScript, "s")));
    assert_eq!(py_task("s").handoff(&nothing), js_task("s").handoff(&nothing).map(|mut m| {
        m.target = MessageTarget::Python;
        m
    }));
}

#[test]
fn handoff_fails_where_either_check_fails() {
    let nothing = TaskSharedStore::new(Access::Disabled, Access::Disabled);
    let missing = Error::TaskArgument(ArgumentFault::MissingInitialStateSource);
    assert_eq!(js_task("").handoff(&nothing), Err(missing));
    for request in requests() {
        if request != nothing {
            assert_eq!(
                py_task("s").handoff(&request),
                Err(Error::AccessNotAllowed { store: request, category: PackageType::Init })
            );
            assert_eq!(py_task("").handoff(&request), Err(missing));
        }
    }
}
