use charlie::traits::{EngineError, Inputs, Outputs, Render, Update};

#[derive(Default)]
struct Recorder {
    events: Vec<String>,
}

impl Outputs for Recorder {
    fn output_added(&mut self, name: &str, screen: usize, width: i32, height: i32) -> Result<(), EngineError> {
        self.events.push(format!("output {} {} {}x{}", name, screen, width, height));
        Ok(())
    }
    fn output_changed(&mut self) -> Result<(), EngineError> {
        Err(EngineError { message: "unsupported".to_string() })
    }
    fn output_removed(&mut self) -> Result<(), EngineError> {
        self.events.push("output removed".to_string());
        Ok(())
    }
}

impl Inputs for Recorder {
    fn input_added(&mut self, name: &str) -> Result<(), EngineError> {
        self.events.push(format!("input {}", name));
        Ok(())
    }
    fn input_changed(&mut self) -> Result<(), EngineError> {
        Ok(())
    }
    fn input_removed(&mut self) -> Result<(), EngineError> {
        Ok(())
    }
}

impl Update<u32> for Recorder {
    fn update(&mut self, context: u32) -> Result<(), EngineError> {
        self.events.push(format!("update {}", context));
        Ok(())
    }
}

impl<'r> Render<'r, Vec<u32>> for Recorder {
    fn render(&'r mut self, context: &'r mut Vec<u32>) -> Result<(), EngineError> {
        context.push(self.events.len() as u32);
        Ok(())
    }
}

#[test]
fn engines_are_told_of_outputs_and_inputs() {
    let mut r = Recorder::default();
    r.output_added("Alice", 0, 720, 540).unwrap();
    r.input_added("Charlie").unwrap();
    r.update(3).unwrap();
    assert_eq!(r.output_changed().unwrap_err().message, "unsupported");
    r.output_removed().unwrap();
    let mut frames = Vec::new();
    r.render(&mut frames).unwrap();
    assert_eq!(frames, vec![4]);
    assert_eq!(r.events, vec!["output Alice 0 720x540", "input Charlie", "update 3", "output removed"]);
}
