use command_relay::local::{Invocation, Shell};
use command_relay::message::{Inbound, Markup, Outbound};
use command_relay::relay::{Backend, Relay, Route, Step, Work};
use command_relay::remote::Request;
use command_relay::scaffold::{BuildJob, Layout};

fn text(s: &str) -> String {
    s.to_string()
}

fn message(body: &str, sender: i64, chat: i64) -> Inbound {
    Inbound { text: Some(body.to_string()), sender: Some(sender), chat }
}

fn local() -> Relay {
    Relay::local(vec![100, 200], Shell::Posix)
}

fn remote() -> Relay {
    Relay::remote(vec![100, 200])
}

fn usage_reply(chat: i64, body: &str) -> Step {
    Step::Reply { message: Outbound { chat, text: body.to_string(), markup: Markup::Plain } }
}

#[test]
fn local_relay_has_two_routes() {
    let relay = Relay::local(vec![1], Shell::Windows);
    assert_eq!(
        relay,
        Relay {
            allowed: vec![1],
            routes: vec![
                Route { prefix: text("/sh"), backend: Backend::Shell { shell: Shell::Windows } },
                Route {
                    prefix: text("/rustexec"),
                    backend: Backend::Build {
                        layout: Layout { root: text("builds"), project: text("bot") },
                        shell: Shell::Windows,
                    },
                },
            ],
        }
    );
}

#[test]
fn remote_relay_has_one_route() {
    let relay = Relay::remote(vec![1, 2]);
    assert_eq!(
        relay,
        Relay {
            allowed: vec![1, 2],
            routes: vec![Route {
                prefix: text("/rustexec"),
                backend: Backend::Remote {
                    endpoint: text("https://rextester.com/rundotnet/api"),
                    language: text("46"),
                },
            }],
        }
    );
}

#[test]
fn text_without_a_known_prefix_is_ignored() {
    assert_eq!(local().dispatch(&message("hello", 100, 1)), Step::Ignore);
    assert_eq!(local().dispatch(&message("/start", 100, 1)), Step::Ignore);
    assert_eq!(local().dispatch(&message(" /sh ls", 100, 1)), Step::Ignore);
    assert_eq!(local().dispatch(&message("", 100, 1)), Step::Ignore);
    assert_eq!(remote().dispatch(&message("/sh ls", 100, 1)), Step::Ignore);
}

#[test]
fn message_without_text_is_ignored() {
    let inbound = Inbound { text: None, sender: Some(100), chat: 1 };
    assert_eq!(local().dispatch(&inbound), Step::Ignore);
    assert_eq!(remote().dispatch(&inbound), Step::Ignore);
}

#[test]
fn message_without_sender_is_ignored() {
    let inbound = Inbound { text: Some(text("/sh ls")), sender: None, chat: 1 };
    assert_eq!(local().dispatch(&inbound), Step::Ignore);
}

#[test]
fn stranger_is_ignored_whatever_the_payload() {
    assert_eq!(local().dispatch(&message("/sh ls", 300, 1)), Step::Ignore);
    assert_eq!(local().dispatch(&message("/sh", 300, 1)), Step::Ignore);
    assert_eq!(local().dispatch(&message("/rustexec fn main() {}", 300, 1)), Step::Ignore);
    assert_eq!(remote().dispatch(&message("/rustexec", 300, 1)), Step::Ignore);
    assert_eq!(remote().dispatch(&message("/rustexec fn main() {}", 300, 1)), Step::Ignore);
}

#[test]
fn nobody_is_allowed_by_an_empty_list() {
    let relay = Relay::local(Vec::new(), Shell::Posix);
    assert_eq!(relay.dispatch(&message("/sh ls", 100, 1)), Step::Ignore);
}

#[test]
fn bare_command_gets_its_usage() {
    assert_eq!(local().dispatch(&message("/sh", 100, 7)), usage_reply(7, "Format: /sh code"));
    assert_eq!(
        local().dispatch(&message("/rustexec", 200, 8)),
        usage_reply(8, "Format: /rustexec code")
    );
    assert_eq!(
        remote().dispatch(&message("/rustexec", 100, 9)),
        usage_reply(9, "Format: /rustexec code")
    );
}

#[test]
fn command_made_of_prefixes_gets_its_usage() {
    assert_eq!(local().dispatch(&message("/sh/sh", 100, 7)), usage_reply(7, "Format: /sh code"));
}

#[test]
fn shell_command_is_run() {
    assert_eq!(
        local().dispatch(&message("/sh echo hi", 100, 7)),
        Step::Invoke {
            work: Work::Run {
                chat: 7,
                command: Invocation { program: text("sh"), args: vec![text("-c"), text(" echo hi")] },
            },
        }
    );
}

#[test]
fn shell_command_on_windows() {
    let relay = Relay::local(vec![100], Shell::Windows);
    assert_eq!(
        relay.dispatch(&message("/sh dir", 100, 7)),
        Step::Invoke {
            work: Work::Run {
                chat: 7,
                command: Invocation { program: text("cmd"), args: vec![text("/C"), text(" dir")] },
            },
        }
    );
}

#[test]
fn shell_command_of_blanks_is_run() {
    assert_eq!(
        local().dispatch(&message("/sh ", 100, 7)),
        Step::Invoke {
            work: Work::Run {
                chat: 7,
                command: Invocation { program: text("sh"), args: vec![text("-c"), text(" ")] },
            },
        }
    );
}

#[test]
fn longer_word_with_the_prefix_is_a_command() {
    assert_eq!(
        local().dispatch(&message("/shutdown now", 100, 7)),
        Step::Invoke {
            work: Work::Run {
                chat: 7,
                command: Invocation {
                    program: text("sh"),
                    args: vec![text("-c"), text("utdown now")],
                },
            },
        }
    );
}

#[test]
fn program_is_built_on_the_scaffold() {
    assert_eq!(
        local().dispatch(&message("/rustexec fn main() {\n}\n", 200, 8)),
        Step::Invoke {
            work: Work::Build {
                job: BuildJob {
                    chat: 8,
                    file: text("builds/bot/src/main.rs"),
                    source: text(" fn main() {\n}\n"),
                    command: Invocation {
                        program: text("sh"),
                        args: vec![text("-c"), text("cd builds && cd bot && cargo run")],
                    },
                },
            },
        }
    );
}

#[test]
fn program_is_posted_to_the_service() {
    assert_eq!(
        remote().dispatch(&message("/rustexec fn main() {}", 200, 8)),
        Step::Invoke {
            work: Work::Post {
                chat: 8,
                request: Request {
                    endpoint: text("https://rextester.com/rundotnet/api"),
                    fields: vec![
                        (text("LanguageChoice"), text("46")),
                        (text("Program"), text(" fn main() {}")),
                    ],
                },
            },
        }
    );
}

#[test]
fn first_route_that_fits_has_the_command() {
    let relay = Relay {
        allowed: vec![1],
        routes: vec![
            Route { prefix: text("/run"), backend: Backend::Shell { shell: Shell::Posix } },
            Route {
                prefix: text("/r"),
                backend: Backend::Remote { endpoint: text("http://a"), language: text("1") },
            },
            Route {
                prefix: text("/runner"),
                backend: Backend::Build { layout: Layout::standard(), shell: Shell::Windows },
            },
        ],
    };
    assert_eq!(
        relay.dispatch(&message("/runner x", 1, 2)),
        Step::Invoke {
            work: Work::Run {
                chat: 2,
                command: Invocation { program: text("sh"), args: vec![text("-c"), text("ner x")] },
            },
        }
    );
    assert_eq!(
        relay.dispatch(&message("/rx", 1, 2)),
        Step::Invoke {
            work: Work::Post {
                chat: 2,
                request: Request {
                    endpoint: text("http://a"),
                    fields: vec![(text("LanguageChoice"), text("1")), (text("Program"), text("x"))],
                },
            },
        }
    );
    assert_eq!(relay.route("/runner x"), Some(0));
    assert_eq!(relay.route("/rx"), Some(1));
    assert_eq!(relay.route("/x"), None);
    assert_eq!(relay.route(""), None);
}

#[test]
fn relay_without_routes_ignores_everything() {
    let relay = Relay { allowed: vec![1], routes: Vec::new() };
    assert_eq!(relay.dispatch(&message("/sh ls", 1, 2)), Step::Ignore);
    assert_eq!(relay.route("/sh ls"), None);
}

#[test]
fn backend_work_for_each_kind() {
    let work = Backend::Shell { shell: Shell::Posix }.work(3, "ls");
    assert_eq!(
        work,
        Work::Run {
            chat: 3,
            command: Invocation { program: text("sh"), args: vec![text("-c"), text("ls")] },
        }
    );
    let backend = Backend::Remote { endpoint: text("http://a"), language: text("9") };
    assert_eq!(
        backend.work(3, "p"),
        Work::Post {
            chat: 3,
            request: Request {
                endpoint: text("http://a"),
                fields: vec![(text("LanguageChoice"), text("9")), (text("Program"), text("p"))],
            },
        }
    );
    let backend = Backend::Build {
        layout: Layout { root: text("w"), project: text("p") },
        shell: Shell::Windows,
    };
    assert_eq!(
        backend.work(3, "src"),
        Work::Build {
            job: BuildJob {
                chat: 3,
                file: text("w/p/src/main.rs"),
                source: text("src"),
                command: Invocation {
                    program: text("cmd"),
                    args: vec![text("/C"), text("cd w && cd p && cargo run")],
                },
            },
        }
    );
}
