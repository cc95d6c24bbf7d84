//! The external programs each request runs, with their exact arguments.
use vstd::prelude::*;
use crate::command::{Band, DumpCommand, Kind, kind_of};
use crate::text::{
    command_args, digits, digits_text, pad_zeros, split_on_space, trimmed, zero_padded,
};

verus! {

/// A program to start, with its arguments.
#[derive(Debug)]
pub struct Invocation {
    pub program: String,
    pub args: Vec<String>,
}

pub struct InvocationView {
    pub program: Seq<char>,
    pub args: Seq<Seq<char>>,
}

impl View for Invocation {
    type V = InvocationView;

    open spec fn view(&self) -> InvocationView {
        InvocationView { program: self.program@, args: self.args.deep_view() }
    }
}

/// One external step of a request. Each succeeds or fails as a whole.
#[derive(Debug)]
pub enum Step {
    /// Start the program and wait for its exit status.
    Run(Invocation),
    /// Start `producer` with its output fed to `consumer`, store what
    /// `consumer` writes in the file at `output_path`, and wait for both.
    Pipe { producer: Invocation, consumer: Invocation, output_path: String },
}

pub enum StepView {
    Run(InvocationView),
    Pipe { producer: InvocationView, consumer: InvocationView, output_path: Seq<char> },
}

impl View for Step {
    type V = StepView;

    open spec fn view(&self) -> StepView {
        match self {
            Step::Run(i) => StepView::Run(i@),
            Step::Pipe { producer, consumer, output_path } => StepView::Pipe {
                producer: producer@,
                consumer: consumer@,
                output_path: output_path@,
            },
        }
    }
}

/// The kernel name of the radio that serves `b`.
pub open spec fn phy_name(b: Band) -> Seq<char> {
    match b {
        Band::Band5GHz => "phy1"@,
        Band::Band2_4GHz => "phy0"@,
    }
}

/// Where in the capture engine the samples of `b` are placed.
pub open spec fn register_offset(b: Band) -> nat {
    match b {
        Band::Band5GHz => 0xe000,
        Band::Band2_4GHz => 0x1c000,
    }
}

/// The physical address the samples of `b` are read from.
pub open spec fn dump_base(b: Band) -> nat {
    match b {
        Band::Band5GHz => 0x20000000,
        Band::Band2_4GHz => 0x30000000,
    }
}

/// How many bytes of samples of `b` are read.
pub open spec fn dump_length(b: Band) -> nat {
    match b {
        Band::Band5GHz => 0x62000,
        Band::Band2_4GHz => 0xd8000,
    }
}

/// The shell line that arms the capture engine of `b`.
pub open spec fn register_script(b: Band) -> Seq<char> {
    "echo 0 1 0 15 0 "@ + digits(register_offset(b), true, false)
        + " 0 2 0  1 0 0 0 > /sys/kernel/debug/ieee80211/"@ + phy_name(b)
        + "/siwifi/iq_engine"@
}

/// `n` as `0x` and lower-case hexadecimal digits.
pub open spec fn hex_arg_of(n: nat) -> Seq<char> {
    "0x"@ + digits(n, true, false)
}

/// `n` as `0x` and eight upper-case hexadecimal digits.
pub open spec fn register_arg_of(n: u32) -> Seq<char> {
    "0x"@ + zero_padded(digits(n as nat, true, true), 8)
}

/// The file called `name` in the scratch directory.
pub open spec fn tmp_path(name: Seq<char>) -> Seq<char> {
    "/tmp/"@ + name
}

/// A shell that runs `line`.
pub open spec fn shell_line(line: Seq<char>) -> InvocationView {
    InvocationView { program: "/bin/ash"@, args: seq!["-c"@, line] }
}

/// The format that prints each 32-bit word as `0x` and eight digits on a
/// line of its own.
pub open spec fn word_format() -> Seq<char> {
    "\"0x%08x\"\"\\n\""@
}

/// The steps a request runs, in order.
pub open spec fn plan_of(c: DumpCommand) -> Seq<StepView> {
    match c {
        DumpCommand::DumpIQ { band, file_name } => seq![
            StepView::Run(shell_line(register_script(band))),
            StepView::Pipe {
                producer: InvocationView {
                    program: "memdump"@,
                    args: seq![hex_arg_of(dump_base(band)), hex_arg_of(dump_length(band))],
                },
                consumer: InvocationView {
                    program: "hexdump"@,
                    args: seq!["-v"@, "-e"@, word_format()],
                },
                output_path: tmp_path(file_name@),
            },
        ],
        DumpCommand::DelFiles => seq![StepView::Run(shell_line("rm -rf /tmp/*.txt"@))],
        DumpCommand::CopyFiles(_) => seq![],
        DumpCommand::SetReg { addr, value } => seq![
            StepView::Run(
                InvocationView {
                    program: "devmem"@,
                    args: seq![register_arg_of(addr), "32"@, register_arg_of(value)],
                },
            ),
        ],
        DumpCommand::ShellCmd(line) => seq![StepView::Run(shell_line(line@))],
        DumpCommand::ATEInit => seq![
            StepView::Run(
                InvocationView {
                    program: "iw"@,
                    args: seq![
                        "phy"@,
                        "phy1"@,
                        "interface"@,
                        "add"@,
                        "wlan0"@,
                        "type"@,
                        "managed"@,
                    ],
                },
            ),
            StepView::Run(
                InvocationView {
                    program: "iw"@,
                    args: seq![
                        "phy"@,
                        "phy0"@,
                        "interface"@,
                        "add"@,
                        "wlan1"@,
                        "type"@,
                        "managed"@,
                    ],
                },
            ),
            StepView::Run(InvocationView { program: "ifconfig"@, args: seq!["wlan0"@, "up"@] }),
            StepView::Run(InvocationView { program: "ifconfig"@, args: seq!["wlan1"@, "up"@] }),
        ],
        DumpCommand::ATECmd(text) => seq![
            StepView::Run(
                InvocationView { program: "ate_cmd"@, args: split_on_space(trimmed(text@)) },
            ),
        ],
    }
}

/// How many steps a request of kind `k` runs.
pub open spec fn step_count(k: Kind) -> nat {
    match k {
        Kind::DumpIq => 2,
        Kind::DelFiles => 1,
        Kind::CopyFile => 0,
        Kind::SetReg => 1,
        Kind::ShellCmd => 1,
        Kind::AteInit => 4,
        Kind::AteCmd => 1,
    }
}

/// Every request runs as many steps as its kind says.
pub proof fn lemma_plan_length(c: DumpCommand)
    ensures
        plan_of(c).len() == step_count(kind_of(c)),
{
}

impl Band {
    pub fn register_offset(&self) -> (r: u64)
        ensures
            r == register_offset(*self),
    {
        match self {
            Band::Band5GHz => 0xe000,
            Band::Band2_4GHz => 0x1c000,
        }
    }

    pub fn dump_base(&self) -> (r: u64)
        ensures
            r == dump_base(*self),
    {
        match self {
            Band::Band5GHz => 0x20000000,
            Band::Band2_4GHz => 0x30000000,
        }
    }

    pub fn dump_length(&self) -> (r: u64)
        ensures
            r == dump_length(*self),
    {
        match self {
            Band::Band5GHz => 0x62000,
            Band::Band2_4GHz => 0xd8000,
        }
    }

    pub fn phy_name(&self) -> (r: &'static str)
        ensures
            r@ == phy_name(*self),
    {
        match self {
            Band::Band5GHz => "phy1",
            Band::Band2_4GHz => "phy0",
        }
    }

    /// The shell line that arms this band's capture engine.
    pub fn register_script(&self) -> (r: String)
        ensures
            r@ == register_script(*self),
    {
        let offset = digits_text(self.register_offset(), true, false);
        let r = String::from_str("echo 0 1 0 15 0 ").concat(offset.as_str()).concat(
            " 0 2 0  1 0 0 0 > /sys/kernel/debug/ieee80211/",
        ).concat(self.phy_name()).concat("/siwifi/iq_engine");
        assert(r@ =~= register_script(*self));
        r
    }
}

/// `n` as an address or length argument of the memory dump tool.
pub fn hex_arg(n: u64) -> (r: String)
    ensures
        r@ == hex_arg_of(n as nat),
{
    String::from_str("0x").concat(digits_text(n, true, false).as_str())
}

/// `n` as an address or value argument of the register poke tool.
pub fn register_arg(n: u32) -> (r: String)
    ensures
        r@ == register_arg_of(n),
{
    let d = pad_zeros(digits_text(n as u64, true, true), 8);
    String::from_str("0x").concat(d.as_str())
}

/// The path of the file called `name` in the scratch directory.
pub fn in_tmp(name: &str) -> (r: String)
    ensures
        r@ == tmp_path(name@),
{
    String::from_str("/tmp/").concat(name)
}

fn push_word(v: &mut Vec<String>, w: &str)
    ensures
        final(v).deep_view() == old(v).deep_view().push(w@),
{
    v.push(String::from_str(w));
    assert(final(v).deep_view() =~= old(v).deep_view().push(w@));
}

fn push_string(v: &mut Vec<String>, s: String)
    ensures
        final(v).deep_view() == old(v).deep_view().push(s@),
{
    let ghost text = s@;
    v.push(s);
    assert(final(v).deep_view() =~= old(v).deep_view().push(text));
}

fn words(ws: &[&str]) -> (r: Vec<String>)
    ensures
        r.deep_view() == ws@.map_values(|w: &str| w@),
{
    let mut r: Vec<String> = Vec::new();
    let mut i: usize = 0;
    while i < ws.len()
        invariant
            i <= ws@.len(),
            r.deep_view() =~= ws@.subrange(0, i as int).map_values(|w: &str| w@),
        decreases ws@.len() - i,
    {
        push_word(&mut r, ws[i]);
        i = i + 1;
        assert(ws@.subrange(0, i as int).map_values(|w: &str| w@) =~= ws@.subrange(
            0,
            i - 1,
        ).map_values(|w: &str| w@).push(ws@[i - 1]@));
    }
    assert(ws@.subrange(0, i as int) =~= ws@);
    r
}

fn shell(line: String) -> (r: Invocation)
    ensures
        r@ == shell_line(line@),
{
    let ghost text = line@;
    let mut args: Vec<String> = Vec::new();
    push_word(&mut args, "-c");
    push_string(&mut args, line);
    let r = Invocation { program: String::from_str("/bin/ash"), args };
    assert(r@.args =~= shell_line(text).args);
    r
}

fn invocation(program: &str, ws: &[&str]) -> (r: Invocation)
    ensures
        r@.program == program@,
        r@.args == ws@.map_values(|w: &str| w@),
{
    Invocation { program: String::from_str(program), args: words(ws) }
}

/// The steps that `cmd` runs, in order.
pub fn plan(cmd: &DumpCommand) -> (r: Vec<Step>)
    ensures
        r@.len() == plan_of(*cmd).len(),
        forall|i: int| 0 <= i < r@.len() ==> #[trigger] r@[i]@ == plan_of(*cmd)[i],
{
    let mut r: Vec<Step> = Vec::new();
    match cmd {
        DumpCommand::DumpIQ { band, file_name } => {
            r.push(Step::Run(shell(band.register_script())));
            let mut dump_args: Vec<String> = Vec::new();
            push_string(&mut dump_args, hex_arg(band.dump_base()));
            push_string(&mut dump_args, hex_arg(band.dump_length()));
            let producer = Invocation { program: String::from_str("memdump"), args: dump_args };
            assert(producer@.args =~= seq![
                hex_arg_of(dump_base(*band)),
                hex_arg_of(dump_length(*band)),
            ]);
            let consumer = invocation("hexdump", &["-v", "-e", "\"0x%08x\"\"\\n\""]);
            assert(consumer@.args =~= seq!["-v"@, "-e"@, word_format()]);
            r.push(Step::Pipe { producer, consumer, output_path: in_tmp(file_name.as_str()) });
        },
        DumpCommand::DelFiles => {
            r.push(Step::Run(shell(String::from_str("rm -rf /tmp/*.txt"))));
        },
        DumpCommand::CopyFiles(_) => {},
        DumpCommand::SetReg { addr, value } => {
            let mut args: Vec<String> = Vec::new();
            push_string(&mut args, register_arg(*addr));
            push_word(&mut args, "32");
            push_string(&mut args, register_arg(*value));
            assert(args.deep_view() =~= seq![
                register_arg_of(*addr),
                "32"@,
                register_arg_of(*value),
            ]);
            r.push(Step::Run(Invocation { program: String::from_str("devmem"), args }));
        },
        DumpCommand::ShellCmd(line) => {
            r.push(Step::Run(shell(String::from_str(line.as_str()))));
        },
        DumpCommand::ATEInit => {
            let a = invocation("iw", &["phy", "phy1", "interface", "add", "wlan0", "type", "managed"]);
            let b = invocation("iw", &["phy", "phy0", "interface", "add", "wlan1", "type", "managed"]);
            let c = invocation("ifconfig", &["wlan0", "up"]);
            let d = invocation("ifconfig", &["wlan1", "up"]);
            assert(a@.args =~= seq!["phy"@, "phy1"@, "interface"@, "add"@, "wlan0"@, "type"@, "managed"@]);
            assert(b@.args =~= seq!["phy"@, "phy0"@, "interface"@, "add"@, "wlan1"@, "type"@, "managed"@]);
            assert(c@.args =~= seq!["wlan0"@, "up"@]);
            assert(d@.args =~= seq!["wlan1"@, "up"@]);
            r.push(Step::Run(a));
            r.push(Step::Run(b));
            r.push(Step::Run(c));
            r.push(Step::Run(d));
        },
        DumpCommand::ATECmd(text) => {
            let args = command_args(text.as_str());
            r.push(Step::Run(Invocation { program: String::from_str("ate_cmd"), args }));
        },
    }
    assert(r@.map_values(|x: Step| x@) =~= plan_of(*cmd));
    assert forall|i: int| 0 <= i < r@.len() implies #[trigger] r@[i]@ == plan_of(*cmd)[i] by {
        assert(r@.map_values(|x: Step| x@)[i] == r@[i]@);
    }
    r
}

} // verus!
