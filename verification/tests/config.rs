use plc_runtime::config::General;
use plc_runtime::config::TaskSetting;

#[test]
fn test_config_general() {
    let s = "task_setting:\n  max_work_time_for_not_cycle_task: 500\n  return_time_work: 1000\n";

    let doc: serde_yaml::Value = serde_yaml::from_str(s).unwrap();
    let setting = &doc["task_setting"];
    let x = General {
        task_setting: TaskSetting {
            max_work_time_for_not_cycle_task: setting["max_work_time_for_not_cycle_task"]
                .as_u64()
                .unwrap(),
            return_time_work: setting["return_time_work"].as_u64().unwrap(),
        },
    };

    let expect = General {
        task_setting: TaskSetting {
            max_work_time_for_not_cycle_task: 500,
            return_time_work: 1000,
        },
    };

    assert_eq!(x, expect);
}
