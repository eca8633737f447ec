use navichat::error::Error;
use navichat::registry::{ToolHandler, ToolRegistry};

enum TestTool {
    Yields(&'static str),
    Fails(&'static str),
}

impl ToolHandler for TestTool {
    // Erased specification item of the handler trait; never called at run time.
    fn spec_invoke(
        &self,
        _arguments: vstd::seq::Seq<char>,
    ) -> Result<vstd::seq::Seq<char>, vstd::seq::Seq<char>> {
        panic!()
    }

    fn invoke(&self, _arguments: &str) -> Result<String, String> {
        match self {
            TestTool::Yields(v) => Ok(v.to_string()),
            TestTool::Fails(d) => Err(d.to_string()),
        }
    }
}

#[test]
fn dispatch_round_trip() {
    let mut reg: ToolRegistry<TestTool> = ToolRegistry::new();
    reg.register(
        "get_weather".to_string(),
        TestTool::Yields("{\"temperature\":15}"),
    );
    let args = "{\"location\":\"Paris\"}".to_string();
    let direct = TestTool::Yields("{\"temperature\":15}")
        .invoke(&args)
        .unwrap();
    let dispatched = reg.dispatch(&"get_weather".to_string(), &args).unwrap();
    assert_eq!(direct, dispatched);
}

#[test]
fn dispatch_unknown_tool() {
    let reg: ToolRegistry<TestTool> = ToolRegistry::new();
    let r = reg.dispatch(&"nope".to_string(), &"{}".to_string());
    assert!(matches!(r, Err(Error::UnknownTool { ref name }) if name == "nope"));
}

#[test]
fn dispatch_rejects_malformed_arguments() {
    let mut reg: ToolRegistry<TestTool> = ToolRegistry::new();
    reg.register("t".to_string(), TestTool::Yields("1"));
    let r = reg.dispatch(&"t".to_string(), &"not a document".to_string());
    assert!(matches!(r, Err(Error::ArgumentDecode { ref name }) if name == "t"));
}

#[test]
fn dispatch_propagates_handler_failure() {
    let mut reg: ToolRegistry<TestTool> = ToolRegistry::new();
    reg.register("t".to_string(), TestTool::Fails("city unknown"));
    let r = reg.dispatch(&"t".to_string(), &"{}".to_string());
    assert!(matches!(
        r,
        Err(Error::Handler { ref name, ref detail }) if name == "t" && detail == "city unknown"
    ));
}

#[test]
fn register_last_wins() {
    let mut reg: ToolRegistry<TestTool> = ToolRegistry::new();
    reg.register("t".to_string(), TestTool::Yields("first"));
    reg.register("t".to_string(), TestTool::Yields("second"));
    let r = reg.dispatch(&"t".to_string(), &"{}".to_string()).unwrap();
    assert_eq!(r, "second");
}
