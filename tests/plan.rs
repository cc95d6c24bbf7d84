use iq_server::command::{Band, DumpCommand};
use iq_server::plan::{hex_arg, in_tmp, plan, register_arg, Invocation, Step};

fn run_of(step: &Step) -> &Invocation {
    match step {
        Step::Run(i) => i,
        Step::Pipe { .. } => panic!("expected a single program"),
    }
}

#[test]
fn dump_plan_5ghz() {
    let steps = plan(&DumpCommand::DumpIQ { band: Band::Band5GHz, file_name: String::from("iq5.txt") });
    assert_eq!(steps.len(), 2);
    let arm = run_of(&steps[0]);
    assert_eq!(arm.program, "/bin/ash");
    assert_eq!(
        arm.args,
        vec!["-c", "echo 0 1 0 15 0 e000 0 2 0  1 0 0 0 > /sys/kernel/debug/ieee80211/phy1/siwifi/iq_engine"]
    );
    match &steps[1] {
        Step::Pipe { producer, consumer, output_path } => {
            assert_eq!(producer.program, "memdump");
            assert_eq!(producer.args, vec!["0x20000000", "0x62000"]);
            assert_eq!(consumer.program, "hexdump");
            assert_eq!(consumer.args, vec!["-v", "-e", r#""0x%08x""\n""#]);
            assert_eq!(output_path, "/tmp/iq5.txt");
        }
        Step::Run(_) => panic!("expected a pipeline"),
    }
}

#[test]
fn dump_plan_2_4ghz() {
    let steps = plan(&DumpCommand::DumpIQ { band: Band::Band2_4GHz, file_name: String::from("iq2.txt") });
    assert_eq!(steps.len(), 2);
    assert_eq!(
        run_of(&steps[0]).args,
        vec!["-c", "echo 0 1 0 15 0 1c000 0 2 0  1 0 0 0 > /sys/kernel/debug/ieee80211/phy0/siwifi/iq_engine"]
    );
    match &steps[1] {
        Step::Pipe { producer, output_path, .. } => {
            assert_eq!(producer.args, vec!["0x30000000", "0xd8000"]);
            assert_eq!(output_path, "/tmp/iq2.txt");
        }
        Step::Run(_) => panic!("expected a pipeline"),
    }
}

#[test]
fn delete_plan() {
    let steps = plan(&DumpCommand::DelFiles);
    assert_eq!(steps.len(), 1);
    let i = run_of(&steps[0]);
    assert_eq!(i.program, "/bin/ash");
    assert_eq!(i.args, vec!["-c", "rm -rf /tmp/*.txt"]);
}

#[test]
fn copy_plan_runs_nothing() {
    assert!(plan(&DumpCommand::CopyFiles(String::from("a.txt"))).is_empty());
}

#[test]
fn set_register_plan() {
    let steps = plan(&DumpCommand::SetReg { addr: 0xABCD, value: 0x1 });
    assert_eq!(steps.len(), 1);
    let i = run_of(&steps[0]);
    assert_eq!(i.program, "devmem");
    assert_eq!(i.args, vec!["0x0000ABCD", "32", "0x00000001"]);
}

#[test]
fn set_register_plan_full_width() {
    let steps = plan(&DumpCommand::SetReg { addr: 0xFFFF_FFFF, value: 0x1234_abcd });
    assert_eq!(run_of(&steps[0]).args, vec!["0xFFFFFFFF", "32", "0x1234ABCD"]);
}

#[test]
fn shell_plan_keeps_text() {
    let steps = plan(&DumpCommand::ShellCmd(String::from("ls -l /tmp | wc -l")));
    assert_eq!(steps.len(), 1);
    let i = run_of(&steps[0]);
    assert_eq!(i.program, "/bin/ash");
    assert_eq!(i.args, vec!["-c", "ls -l /tmp | wc -l"]);
}

#[test]
fn ate_init_plan() {
    let steps = plan(&DumpCommand::ATEInit);
    assert_eq!(steps.len(), 4);
    assert_eq!(run_of(&steps[0]).program, "iw");
    assert_eq!(run_of(&steps[0]).args, vec!["phy", "phy1", "interface", "add", "wlan0", "type", "managed"]);
    assert_eq!(run_of(&steps[1]).program, "iw");
    assert_eq!(run_of(&steps[1]).args, vec!["phy", "phy0", "interface", "add", "wlan1", "type", "managed"]);
    assert_eq!(run_of(&steps[2]).program, "ifconfig");
    assert_eq!(run_of(&steps[2]).args, vec!["wlan0", "up"]);
    assert_eq!(run_of(&steps[3]).program, "ifconfig");
    assert_eq!(run_of(&steps[3]).args, vec!["wlan1", "up"]);
}

#[test]
fn ate_command_plan_splits_words() {
    let steps = plan(&DumpCommand::ATECmd(String::from(" wlan0 fastconfig -f 5745 -r \n")));
    assert_eq!(steps.len(), 1);
    let i = run_of(&steps[0]);
    assert_eq!(i.program, "ate_cmd");
    assert_eq!(i.args, vec!["wlan0", "fastconfig", "-f", "5745", "-r"]);
}

#[test]
fn argument_helpers() {
    assert_eq!(hex_arg(0x62000), "0x62000");
    assert_eq!(hex_arg(0), "0x0");
    assert_eq!(register_arg(0), "0x00000000");
    assert_eq!(in_tmp("out.bin"), "/tmp/out.bin");
}

#[test]
fn band_constants() {
    assert_eq!(Band::Band5GHz.register_offset(), 0xe000);
    assert_eq!(Band::Band2_4GHz.register_offset(), 0x1c000);
    assert_eq!(Band::Band5GHz.dump_base(), 0x2000_0000);
    assert_eq!(Band::Band2_4GHz.dump_base(), 0x3000_0000);
    assert_eq!(Band::Band5GHz.dump_length(), 0x62000);
    assert_eq!(Band::Band2_4GHz.dump_length(), 0xd8000);
    assert_eq!(Band::Band5GHz.phy_name(), "phy1");
    assert_eq!(Band::Band2_4GHz.phy_name(), "phy0");
}
