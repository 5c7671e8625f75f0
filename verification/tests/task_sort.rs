use plc_runtime::task::sort::sort_tasks;
use plc_runtime::task::task_errors::PlcError;
use plc_runtime::task::MutProgram;
use plc_runtime::task::Task;
use rmodbus::server::context::ModbusContext;

struct Nop;

impl MutProgram for Nop {
    fn run(&mut self, _context: &mut ModbusContext) -> Result<(), PlcError> {
        Ok(())
    }
}

#[test]
fn test_task_sort() {
    let mut result: Vec<Task<Nop>> = vec![
        Task::new_background("new_background: 5", vec![], 5),
        Task::new_background("new_background: 9", vec![], 9),
        Task::new_background("new_background: 2", vec![], 2),
        Task::new_background("new_background: 4", vec![], 4),
        Task::new_cycle("new_cycle: 4", vec![], 4, 0, 0),
        Task::new_cycle("new_cycle: 7", vec![], 7, 0, 0),
        Task::new_cycle("new_cycle: 1", vec![], 1, 0, 0),
        Task::new_cycle("new_cycle: 9", vec![], 9, 0, 0),
        Task::new_coli_bit("new_coli_bit: 3", vec![], 3, 1),
        Task::new_input_bit("new_input_bit: 8", vec![], 8, 1),
        Task::new_input_bit("new_input_bit: 4", vec![], 4, 1),
        Task::new_coli_bit("new_coli_bit: 5", vec![], 5, 1),
        Task::new_coli_bit("new_coli_bit: 1", vec![], 1, 1),
    ];

    let expect = vec![
        "new_cycle: 1",
        "new_coli_bit: 1",
        "new_coli_bit: 3",
        "new_cycle: 4",
        "new_input_bit: 4",
        "new_coli_bit: 5",
        "new_cycle: 7",
        "new_input_bit: 8",
        "new_cycle: 9",
        "new_background: 2",
        "new_background: 4",
        "new_background: 5",
        "new_background: 9",
    ];

    sort_tasks(&mut result);

    assert_eq!(result.iter().map(|i| i.get_name()).collect::<Vec<_>>(), expect);
}
