//! Carrying out steps: the order of requests, reports, the header search and failures.

use init_project::header::{header_candidates, place_list};
use init_project::plan::{create_c_project, StepOf, Step};
use init_project::protocol::{ActionOf, EventOf, Action};
use init_project::runner::{Runner, DirectiveOf, Directive};

fn s(t: &str) -> String {
    t.to_string()
}

fn show_ok(text: &str) -> Directive {
    DirectiveOf::Do { action: ActionOf::Show { line: format!("\x1b[32m✔  {}\x1b[0m", text) } }
}

fn act(a: Action) -> Directive {
    DirectiveOf::Do { action: a }
}

#[test]
fn candidates_in_order() {
    let c = header_candidates(Some(s("/x/nob.h")), Some(s("/opt/bin/tool")), Some(s("/home/u")), "nob.h");
    assert_eq!(c, vec![s("/x/nob.h"), s("/opt/bin/nob.h"), s("/usr/local/share/InitProject/nob.h"), s("/home/u/nob.h")]);
    let c = header_candidates(None, None, None, "nob.h");
    assert_eq!(c, vec![s("/usr/local/share/InitProject/nob.h"), s("nob.h")]);
    let c = header_candidates(None, Some(s("tool")), Some(s("/w/")), "nob.h");
    assert_eq!(c, vec![s("nob.h"), s("/usr/local/share/InitProject/nob.h"), s("/w/nob.h")]);
    let c = header_candidates(None, Some(s("/")), None, "nob.h");
    assert_eq!(c[0], s("./nob.h"));
}

#[test]
fn places_in_order() {
    assert_eq!(
        place_list(Some(s("/e")), Some(s("/p/nob.h")), s("/w/nob.h"), "nob.h"),
        vec![s("/e"), s("/p/nob.h"), s("/usr/local/share/InitProject/nob.h"), s("/w/nob.h")]
    );
    assert_eq!(
        place_list(None, None, s("nob.h"), "nob.h"),
        vec![s("/usr/local/share/InitProject/nob.h"), s("nob.h")]
    );
}

#[test]
fn steps_run_in_order_and_report() {
    let plan: Vec<Step> = vec![
        StepOf::MakeDir { path: s("src") },
        StepOf::Write { path: s("a.txt"), content: s("hola") },
        StepOf::Run { program: s("make"), args: vec![s("all")] },
        StepOf::Announce { text: s("listo") },
    ];
    let mut r = Runner::new(plan);
    assert_eq!(r.pending(), act(ActionOf::MakeDir { path: s("src") }));
    assert_eq!(r.advance(EventOf::Ack), act(ActionOf::Write { path: s("a.txt"), content: s("hola") }));
    assert_eq!(r.advance(EventOf::Ack), show_ok("Creado: a.txt"));
    assert_eq!(r.advance(EventOf::Ack), act(ActionOf::Run { program: s("make"), args: vec![s("all")] }));
    assert_eq!(r.advance(EventOf::Exited { success: true, code: Some(0) }), show_ok("listo"));
    assert!(!r.is_finished());
    assert_eq!(r.advance(EventOf::Ack), DirectiveOf::Finish { outcome: Ok(()) });
    assert!(r.is_finished());
    assert_eq!(r.outcome(), Some(Ok(())));
}

#[test]
fn empty_plan_finishes_at_once() {
    let r = Runner::new(vec![]);
    assert_eq!(r.pending(), DirectiveOf::Finish { outcome: Ok(()) });
}

#[test]
fn unrelated_event_repeats_request() {
    let mut r = Runner::new(vec![StepOf::MakeDir { path: s("src") }]);
    assert_eq!(r.advance(EventOf::Exists { found: true }), act(ActionOf::MakeDir { path: s("src") }));
}

#[test]
fn failures_end_the_run() {
    let mut r = Runner::new(vec![StepOf::MakeDir { path: s("src") }, StepOf::MakeDir { path: s("bin") }]);
    let end = r.advance(EventOf::Failed { detail: s("Permission denied") });
    assert_eq!(end, DirectiveOf::Finish { outcome: Err(s("mkdir src: Permission denied")) });
    assert_eq!(r.advance(EventOf::Ack), end);
    assert_eq!(r.advance(EventOf::Failed { detail: s("x") }), end);

    let mut r = Runner::new(vec![StepOf::Write { path: s("f"), content: s("") }]);
    assert_eq!(
        r.advance(EventOf::Failed { detail: s("disk full") }),
        DirectiveOf::Finish { outcome: Err(s("Error escribiendo f: disk full")) }
    );

    let plan = vec![StepOf::Run { program: s("make"), args: vec![s("lib")] }];
    let mut r = Runner::new(plan);
    assert_eq!(
        r.advance(EventOf::Exited { success: false, code: Some(2) }),
        DirectiveOf::Finish { outcome: Err(s("'make lib' salió con código 2")) }
    );
    let mut r = Runner::new(vec![StepOf::Run { program: s("make"), args: vec![s("lib")] }]);
    assert_eq!(
        r.advance(EventOf::Exited { success: false, code: None }),
        DirectiveOf::Finish { outcome: Err(s("'make lib' salió con código -1")) }
    );
    let mut r = Runner::new(vec![StepOf::Run { program: s("cmake"), args: vec![s("--build"), s("build")] }]);
    assert_eq!(
        r.advance(EventOf::Failed { detail: s("No such file or directory (os error 2)") }),
        DirectiveOf::Finish {
            outcome: Err(s("No se pudo ejecutar 'cmake --build build': No such file or directory (os error 2)"))
        }
    );
}

#[test]
fn header_search_copies_first_found() {
    let mut r = Runner::new(vec![StepOf::InstallHeader, StepOf::Announce { text: s("fin") }]);
    assert_eq!(r.pending(), act(ActionOf::LookUp { variable: s("NOB_PATH") }));
    let hints = EventOf::Hints { variable: Some(s("/env/nob.h")), executable: Some(s("/opt/bin/init")), current: Some(s("/w")) };
    assert_eq!(r.advance(hints), act(ActionOf::Probe { path: s("/env/nob.h") }));
    assert_eq!(r.advance(EventOf::Exists { found: false }), act(ActionOf::Probe { path: s("/opt/bin/nob.h") }));
    assert_eq!(
        r.advance(EventOf::Exists { found: false }),
        act(ActionOf::Probe { path: s("/usr/local/share/InitProject/nob.h") })
    );
    assert_eq!(
        r.advance(EventOf::Exists { found: true }),
        act(ActionOf::Copy { from: s("/usr/local/share/InitProject/nob.h"), to: s("nob.h") })
    );
    assert_eq!(r.advance(EventOf::Ack), show_ok("nob.h copiado desde \"/usr/local/share/InitProject/nob.h\""));
    assert_eq!(r.advance(EventOf::Ack), show_ok("fin"));
}

#[test]
fn header_missing_everywhere() {
    let mut r = Runner::new(vec![StepOf::InstallHeader]);
    let hints = EventOf::Hints { variable: None, executable: None, current: None };
    assert_eq!(r.advance(hints), act(ActionOf::Probe { path: s("/usr/local/share/InitProject/nob.h") }));
    assert_eq!(r.advance(EventOf::Exists { found: false }), act(ActionOf::Probe { path: s("nob.h") }));
    assert_eq!(
        r.advance(EventOf::Exists { found: false }),
        DirectiveOf::Finish {
            outcome: Err(s("ERROR @ No se encontró nob.h. Usa NOB_PATH o instálalo en /usr/local/share/InitProject/"))
        }
    );
}

#[test]
fn header_copy_failure() {
    let mut r = Runner::new(vec![StepOf::InstallHeader]);
    r.advance(EventOf::Hints { variable: Some(s("/e/nob.h")), executable: None, current: None });
    r.advance(EventOf::Exists { found: true });
    assert_eq!(
        r.advance(EventOf::Failed { detail: s("denied") }),
        DirectiveOf::Finish { outcome: Err(s("No se pudo copiar \"/e/nob.h\" → nob.h: denied")) }
    );
}

#[test]
fn whole_c_project_when_everything_succeeds() {
    let mut r = Runner::new(create_c_project("demo", true));
    let mut d = r.pending();
    let mut requests = 0;
    loop {
        let event = match &d {
            DirectiveOf::Finish { outcome } => {
                assert_eq!(outcome, &Ok(()));
                break;
            },
            DirectiveOf::Do { action } => match action {
                ActionOf::LookUp { .. } => EventOf::Hints { variable: Some(s("/h/nob.h")), executable: None, current: None },
                ActionOf::Probe { .. } => EventOf::Exists { found: true },
                ActionOf::Run { .. } => EventOf::Exited { success: true, code: Some(0) },
                _ => EventOf::Ack,
            },
        };
        requests += 1;
        d = r.advance(event);
    }
    // 4 directories, look-up, probe, copy, its report, 8 files with 8 reports,
    // 4 make runs, 2 git runs and 2 announcements.
    assert_eq!(requests, 4 + 4 + 16 + 4 + 2 + 2);
}
