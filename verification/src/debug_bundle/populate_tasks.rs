//! The diagnostic commands that a debug bundle runs.

use vstd::prelude::*;

verus! {

/// The decimal digit `d`.
pub open spec fn digit_char(d: nat) -> char {
    if d == 0 {
        '0'
    } else if d == 1 {
        '1'
    } else if d == 2 {
        '2'
    } else if d == 3 {
        '3'
    } else if d == 4 {
        '4'
    } else if d == 5 {
        '5'
    } else if d == 6 {
        '6'
    } else if d == 7 {
        '7'
    } else if d == 8 {
        '8'
    } else {
        '9'
    }
}

/// The decimal notation of `n`, without leading zeros.
pub open spec fn decimal(n: nat) -> Seq<char>
    decreases n,
{
    if n < 10 {
        seq![digit_char(n)]
    } else {
        decimal(n / 10).push(digit_char(n % 10))
    }
}

fn digit_str(d: u32) -> (r: &'static str)
    requires
        d < 10,
    ensures
        r@ == seq![digit_char(d as nat)],
{
    let r = if d == 0 {
        "0"
    } else if d == 1 {
        "1"
    } else if d == 2 {
        "2"
    } else if d == 3 {
        "3"
    } else if d == 4 {
        "4"
    } else if d == 5 {
        "5"
    } else if d == 6 {
        "6"
    } else if d == 7 {
        "7"
    } else if d == 8 {
        "8"
    } else {
        "9"
    };
    proof {
        reveal_strlit("0");
        reveal_strlit("1");
        reveal_strlit("2");
        reveal_strlit("3");
        reveal_strlit("4");
        reveal_strlit("5");
        reveal_strlit("6");
        reveal_strlit("7");
        reveal_strlit("8");
        reveal_strlit("9");
        assert(r@ =~= seq![digit_char(d as nat)]);
    }
    r
}

fn append_decimal(s: &mut String, n: u32)
    ensures
        final(s)@ == old(s)@ + decimal(n as nat),
    decreases n,
{
    if n >= 10 {
        append_decimal(s, n / 10);
    }
    s.append(digit_str(n % 10));
    proof {
        if n >= 10 {
            assert(decimal(n as nat) == decimal((n / 10) as nat).push(digit_char((n % 10) as nat)));
            assert(s@ =~= old(s)@ + decimal(n as nat));
        } else {
            assert(s@ =~= old(s)@ + decimal(n as nat));
        }
    }
}

/// The decimal notation of `n`.
pub fn to_decimal(n: u32) -> (r: String)
    ensures
        r@ == decimal(n as nat),
{
    let mut s = String::new();
    append_decimal(&mut s, n);
    assert(s@ =~= decimal(n as nat));
    s
}

/// The arguments of `ping` that ping `target` twice, waiting two seconds for each reply, with the
/// firewall mark `fwmark` if one is given.
pub open spec fn ping_args(target: Seq<char>, fwmark: Option<u32>) -> Seq<Seq<char>> {
    seq!["-c"@, "2"@, "-W"@, "2"@, target] + match fwmark {
        Some(mark) => seq!["-m"@, decimal(mark as nat)],
        None => Seq::empty(),
    }
}

/// The program and arguments that ping `target` twice, waiting two seconds for each reply, with
/// the firewall mark `fwmark` on the pings if one is given.
pub fn ping_command(target: &str, fwmark: Option<u32>) -> (r: (String, Vec<String>))
    ensures
        r.0@ == "ping"@,
        r.1@.map_values(|a: String| a@) == ping_args(target@, fwmark),
{
    let mut args: Vec<String> = Vec::new();
    args.push(String::from_str("-c"));
    args.push(String::from_str("2"));
    args.push(String::from_str("-W"));
    args.push(String::from_str("2"));
    args.push(String::from_str(target));
    let ghost base = seq!["-c"@, "2"@, "-W"@, "2"@, target@];
    assert(args@.map_values(|a: String| a@) =~= base);
    if let Some(mark) = fwmark {
        args.push(String::from_str("-m"));
        args.push(to_decimal(mark));
        assert(args@.map_values(|a: String| a@) =~= base + seq!["-m"@, decimal(mark as nat)]);
    } else {
        assert(args@.map_values(|a: String| a@) =~= base + Seq::<Seq<char>>::empty());
    }
    (String::from_str("ping"), args)
}

/// A diagnostic task of a debug bundle, by the name its result is stored under.
pub enum DebugTaskPlan {
    /// Run `program` with `args`.
    Command { name: String, program: String, args: Vec<String> },
    /// Resolve `host`.
    Dns { name: String, host: String },
    /// Fetch `url`, with or without server name indication; from the backend's known addresses
    /// when `backend_addrs`, else from the addresses that resolving the host gives.
    Http { name: String, url: String, backend_addrs: bool, sni: bool, fwmark: Option<u32> },
}

/// A task with its texts as characters.
pub enum TaskView {
    Command { name: Seq<char>, program: Seq<char>, args: Seq<Seq<char>> },
    Dns { name: Seq<char>, host: Seq<char> },
    Http { name: Seq<char>, url: Seq<char>, backend_addrs: bool, sni: bool, fwmark: Option<u32> },
}

pub open spec fn task_view(t: DebugTaskPlan) -> TaskView {
    match t {
        DebugTaskPlan::Command { name, program, args } => TaskView::Command {
            name: name@,
            program: program@,
            args: args@.map_values(|a: String| a@),
        },
        DebugTaskPlan::Dns { name, host } => TaskView::Dns { name: name@, host: host@ },
        DebugTaskPlan::Http { name, url, backend_addrs, sni, fwmark } => TaskView::Http {
            name: name@,
            url: url@,
            backend_addrs,
            sni,
            fwmark,
        },
    }
}

pub open spec fn ping_task(name: Seq<char>, target: Seq<char>, fwmark: Option<u32>) -> TaskView {
    TaskView::Command { name, program: "ping"@, args: ping_args(target, fwmark) }
}

/// The two fetches of `url`: with server name indication under `name`, and without under `name`
/// followed by `-nosni`.
pub open spec fn http_pair(name: Seq<char>, url: Seq<char>, backend_addrs: bool, fwmark: Option<u32>) -> Seq<
    TaskView,
> {
    seq![
        TaskView::Http { name, url, backend_addrs, sni: true, fwmark },
        TaskView::Http { name: name + "-nosni"@, url, backend_addrs, sni: false, fwmark },
    ]
}

/// The tasks of a debug bundle, in order: pings of Cloudflare's and Google's resolvers over IPv4
/// and IPv6, resolutions of Apple's, Google's and the API's (`api_domain`) names, fetches of
/// Apple's and Google's `robots.txt` and of the API's ping endpoint from the backend's addresses,
/// each with and without server name indication, and fetches of the API's ping endpoint under
/// Apple's and Google's names from the backend's addresses. Pings and fetches carry the firewall
/// mark `fwmark`, if there is one.
pub open spec fn debug_task_plan_spec(fwmark: Option<u32>, api_domain: Seq<char>) -> Seq<TaskView> {
    seq![
        ping_task("ping-cloudflare-ipv4"@, "1.1.1.1"@, fwmark),
        ping_task("ping-google-ipv4"@, "8.8.8.8"@, fwmark),
        ping_task("ping-cloudflare-ipv6"@, "2606:4700:4700::1111"@, fwmark),
        ping_task("ping-google-ipv6"@, "2001:4860:4860::8888"@, fwmark),
        TaskView::Dns { name: "dns-apple"@, host: "www.apple.com"@ },
        TaskView::Dns { name: "dns-google"@, host: "google.com"@ },
        TaskView::Dns { name: "dns-obscura-backend"@, host: api_domain },
    ] + http_pair("http-apple"@, "https://www.apple.com/robots.txt"@, false, fwmark) + http_pair(
        "http-google"@,
        "https://google.com/robots.txt"@,
        false,
        fwmark,
    ) + http_pair("http-obscura-backend"@, "https://v1.api.prod.obscura.net/api/ping"@, true, fwmark)
        + seq![
        TaskView::Http {
            name: "http-obscura-backend-sni-apple"@,
            url: "https://apple.com/api/ping"@,
            backend_addrs: true,
            sni: true,
            fwmark,
        },
        TaskView::Http {
            name: "http-obscura-backend-sni-google"@,
            url: "https://google.com/api/ping"@,
            backend_addrs: true,
            sni: true,
            fwmark,
        },
    ]
}

fn push_task(tasks: &mut Vec<DebugTaskPlan>, task: DebugTaskPlan)
    ensures
        final(tasks)@.map_values(|t: DebugTaskPlan| task_view(t)) == old(tasks)@.map_values(
            |t: DebugTaskPlan| task_view(t),
        ).push(task_view(task)),
{
    let ghost before = tasks@;
    tasks.push(task);
    assert(tasks@.map_values(|t: DebugTaskPlan| task_view(t)) =~= before.map_values(
        |t: DebugTaskPlan| task_view(t),
    ).push(task_view(task)));
}

fn push_ping(tasks: &mut Vec<DebugTaskPlan>, name: &str, target: &str, fwmark: Option<u32>)
    ensures
        final(tasks)@.map_values(|t: DebugTaskPlan| task_view(t)) == old(tasks)@.map_values(
            |t: DebugTaskPlan| task_view(t),
        ).push(ping_task(name@, target@, fwmark)),
{
    let (program, args) = ping_command(target, fwmark);
    push_task(tasks, DebugTaskPlan::Command { name: String::from_str(name), program, args });
}

fn push_http_pair(tasks: &mut Vec<DebugTaskPlan>, name: &str, url: &str, backend_addrs: bool, fwmark: Option<u32>)
    ensures
        final(tasks)@.map_values(|t: DebugTaskPlan| task_view(t)) == old(tasks)@.map_values(
            |t: DebugTaskPlan| task_view(t),
        ) + http_pair(name@, url@, backend_addrs, fwmark),
{
    let ghost before = old(tasks)@.map_values(|t: DebugTaskPlan| task_view(t));
    push_task(
        tasks,
        DebugTaskPlan::Http { name: String::from_str(name), url: String::from_str(url), backend_addrs, sni: true, fwmark },
    );
    let mut nosni = String::from_str(name);
    nosni.append("-nosni");
    push_task(tasks, DebugTaskPlan::Http { name: nosni, url: String::from_str(url), backend_addrs, sni: false, fwmark });
    assert(tasks@.map_values(|t: DebugTaskPlan| task_view(t)) =~= before + http_pair(name@, url@, backend_addrs, fwmark));
}

/// The tasks that a debug bundle runs, as `debug_task_plan_spec` lists them; `fwmark` is the
/// firewall mark of the side that collects the bundle, if it has one, and `api_domain` the API's
/// host name.
pub fn debug_task_plan(fwmark: Option<u32>, api_domain: &str) -> (r: Vec<DebugTaskPlan>)
    ensures
        r@.map_values(|t: DebugTaskPlan| task_view(t)) == debug_task_plan_spec(fwmark, api_domain@),
{
    let mut tasks: Vec<DebugTaskPlan> = Vec::new();
    push_ping(&mut tasks, "ping-cloudflare-ipv4", "1.1.1.1", fwmark);
    push_ping(&mut tasks, "ping-google-ipv4", "8.8.8.8", fwmark);
    push_ping(&mut tasks, "ping-cloudflare-ipv6", "2606:4700:4700::1111", fwmark);
    push_ping(&mut tasks, "ping-google-ipv6", "2001:4860:4860::8888", fwmark);
    push_task(&mut tasks, DebugTaskPlan::Dns { name: String::from_str("dns-apple"), host: String::from_str("www.apple.com") });
    push_task(&mut tasks, DebugTaskPlan::Dns { name: String::from_str("dns-google"), host: String::from_str("google.com") });
    push_task(
        &mut tasks,
        DebugTaskPlan::Dns { name: String::from_str("dns-obscura-backend"), host: String::from_str(api_domain) },
    );
    push_http_pair(&mut tasks, "http-apple", "https://www.apple.com/robots.txt", false, fwmark);
    push_http_pair(&mut tasks, "http-google", "https://google.com/robots.txt", false, fwmark);
    push_http_pair(&mut tasks, "http-obscura-backend", "https://v1.api.prod.obscura.net/api/ping", true, fwmark);
    push_task(
        &mut tasks,
        DebugTaskPlan::Http {
            name: String::from_str("http-obscura-backend-sni-apple"),
            url: String::from_str("https://apple.com/api/ping"),
            backend_addrs: true,
            sni: true,
            fwmark,
        },
    );
    push_task(
        &mut tasks,
        DebugTaskPlan::Http {
            name: String::from_str("http-obscura-backend-sni-google"),
            url: String::from_str("https://google.com/api/ping"),
            backend_addrs: true,
            sni: true,
            fwmark,
        },
    );
    assert(tasks@.map_values(|t: DebugTaskPlan| task_view(t)) =~= debug_task_plan_spec(fwmark, api_domain@));
    tasks
}

/// The name of the file that holds the result of the task `name`, run by the side of the bundle
/// named `side`: `<name>-<side>.task.json`.
pub fn task_file_name(name: &str, side: &str) -> (r: String)
    ensures
        r@ == name@ + "-"@ + side@ + ".task.json"@,
{
    let mut file = String::from_str(name);
    file.append("-");
    file.append(side);
    file.append(".task.json");
    file
}

} // verus!
