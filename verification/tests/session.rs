//! The decisions of the command, from its arguments and answers to its exit.

use init_project::protocol::{ActionOf, EventOf, Action};
use init_project::session::{Session, parse_language, accepts, language_of, is_yes_text, LanguageOf};

fn s(t: &str) -> String {
    t.to_string()
}

fn info(t: &str) -> Action {
    ActionOf::Show { line: format!("\x1b[36m➜  {}\x1b[0m", t) }
}

fn error(t: &str) -> Action {
    ActionOf::Complain { line: format!("\x1b[31m✖  ERROR: {}\x1b[0m", t) }
}

fn ask(t: &str) -> Action {
    ActionOf::Ask { prompt: format!("\x1b[1m{}\x1b[0m ", t) }
}

#[test]
fn languages() {
    assert_eq!(parse_language("C"), LanguageOf::C);
    assert_eq!(parse_language("c"), LanguageOf::C);
    assert_eq!(parse_language("  c\n"), LanguageOf::C);
    assert_eq!(parse_language("c++"), LanguageOf::Cpp);
    assert_eq!(parse_language("Cpp"), LanguageOf::Cpp);
    assert_eq!(parse_language(" rust "), LanguageOf::Other { text: s("RUST") });
    assert_eq!(parse_language(""), LanguageOf::Other { text: s("") });
    assert_eq!(parse_language("\u{a0}\tc\u{3000}\u{2028}"), LanguageOf::C);
    assert_eq!(parse_language("c\u{200b}"), LanguageOf::Other { text: s("C\u{200b}") });
}

#[test]
fn normalized_texts() {
    assert_eq!(language_of(s("C")), LanguageOf::C);
    assert_eq!(language_of(s("C++")), LanguageOf::Cpp);
    assert_eq!(language_of(s("CPP")), LanguageOf::Cpp);
    assert_eq!(language_of(s("c")), LanguageOf::Other { text: s("c") });
    assert_eq!(language_of(s("C#")), LanguageOf::Other { text: s("C#") });
    assert!(is_yes_text("sí"));
    assert!(is_yes_text("y"));
    assert!(!is_yes_text("Y"));
    assert!(!is_yes_text("ok"));
}

#[test]
fn answers() {
    for yes in ["s", "S", "si", "SI", "sí", "Sí", "yes", "YES", "y", "Y"] {
        assert!(accepts(yes), "{}", yes);
    }
    for no in ["", "n", "no", "nope", "sii", " s"] {
        assert!(!accepts(no), "{}", no);
    }
}

#[test]
fn interactive_c_project() {
    let mut session = Session::new(None, None, true);
    assert_eq!(session.pending(), info("Modo interactivo — no se pasaron argumentos"));
    assert_eq!(session.advance(EventOf::Ack), ask("Nombre del proyecto:"));
    assert_eq!(session.advance(EventOf::Answer { line: s("  calc \n") }), ask("Lenguaje (C | C++ CPP):"));
    assert_eq!(session.advance(EventOf::Answer { line: s("c\n") }), ActionOf::Probe { path: s("calc") });
    assert_eq!(session.advance(EventOf::Exists { found: false }), ActionOf::MakeDir { path: s("calc") });
    assert_eq!(session.advance(EventOf::Ack), ActionOf::EnterDir { path: s("calc") });
    assert_eq!(session.advance(EventOf::Ack), ActionOf::WhereAmI);
    assert_eq!(
        session.advance(EventOf::Location { path: s("/home/u/calc") }),
        info("Creando proyecto 'calc' en \"/home/u/calc\"...")
    );
    assert_eq!(session.advance(EventOf::Ack), ActionOf::MakeDir { path: s("src") });
    let mut action = session.advance(EventOf::Ack);
    let mut guard = 0;
    loop {
        guard += 1;
        assert!(guard < 100);
        let event = match &action {
            ActionOf::Exit { code } => {
                assert_eq!(*code, 0);
                break;
            },
            ActionOf::Run { program, .. } => {
                assert_ne!(program, "git", "git was turned off");
                EventOf::Exited { success: true, code: Some(0) }
            },
            ActionOf::LookUp { .. } => EventOf::Hints { variable: None, executable: None, current: Some(s("/home/u")) },
            ActionOf::Probe { .. } => EventOf::Exists { found: true },
            _ => EventOf::Ack,
        };
        action = session.advance(event);
    }
}

#[test]
fn empty_name_is_refused() {
    let mut session = Session::new(Some(s("")), Some(s("C")), false);
    assert_eq!(session.pending(), error("El nombre del proyecto no puede estar vacío."));
    assert_eq!(session.advance(EventOf::Ack), ActionOf::Exit { code: 1 });
}

#[test]
fn empty_answer_for_name_is_refused() {
    let mut session = Session::new(None, Some(s("C")), false);
    session.advance(EventOf::Ack);
    assert_eq!(
        session.advance(EventOf::Answer { line: s("   \n") }),
        error("El nombre del proyecto no puede estar vacío.")
    );
}

#[test]
fn existing_directory_declined() {
    let mut session = Session::new(Some(s("demo")), Some(s("c++")), false);
    assert_eq!(session.pending(), ActionOf::Probe { path: s("demo") });
    assert_eq!(
        session.advance(EventOf::Exists { found: true }),
        ActionOf::Show { line: s("\x1b[33m⚠  El directorio 'demo' ya existe.\x1b[0m") }
    );
    assert_eq!(session.advance(EventOf::Ack), ask("¿Continuar de todas formas? [s/N]:"));
    assert_eq!(session.advance(EventOf::Answer { line: s("n\n") }), info("Operación cancelada."));
    assert_eq!(session.advance(EventOf::Ack), ActionOf::Exit { code: 0 });
}

#[test]
fn existing_directory_accepted() {
    let mut session = Session::new(Some(s("demo")), Some(s("cpp")), false);
    session.advance(EventOf::Exists { found: true });
    session.advance(EventOf::Ack);
    assert_eq!(session.advance(EventOf::Answer { line: s(" Sí\n") }), ActionOf::MakeDir { path: s("demo") });
}

#[test]
fn unknown_language_after_directory() {
    let mut session = Session::new(Some(s("demo")), Some(s("rust")), false);
    assert_eq!(session.pending(), ActionOf::Probe { path: s("demo") });
    assert_eq!(session.advance(EventOf::Exists { found: false }), ActionOf::MakeDir { path: s("demo") });
    session.advance(EventOf::Ack);
    session.advance(EventOf::Ack);
    session.advance(EventOf::Location { path: s("/w/demo") });
    assert_eq!(
        session.advance(EventOf::Ack),
        error("Lenguaje desconocido: 'RUST'. Usa C, C++ o CPP.")
    );
    assert_eq!(session.advance(EventOf::Ack), ActionOf::Exit { code: 1 });
}

#[test]
fn directory_failures() {
    let mut session = Session::new(Some(s("demo")), Some(s("c")), false);
    session.advance(EventOf::Exists { found: false });
    assert_eq!(
        session.advance(EventOf::Failed { detail: s("denied") }),
        error("No se pudo crear el directorio 'demo': denied")
    );
    assert_eq!(session.advance(EventOf::Ack), ActionOf::Exit { code: 1 });

    let mut session = Session::new(Some(s("demo")), Some(s("c")), false);
    session.advance(EventOf::Exists { found: false });
    session.advance(EventOf::Ack);
    assert_eq!(
        session.advance(EventOf::Failed { detail: s("denied") }),
        error("No se pudo entrar en 'demo': denied")
    );
}

#[test]
fn failed_step_ends_with_error() {
    let mut session = Session::new(Some(s("demo")), Some(s("C")), false);
    session.advance(EventOf::Exists { found: false });
    session.advance(EventOf::Ack);
    session.advance(EventOf::Ack);
    session.advance(EventOf::Location { path: s("/w/demo") });
    assert_eq!(session.advance(EventOf::Ack), ActionOf::MakeDir { path: s("src") });
    assert_eq!(session.advance(EventOf::Failed { detail: s("full") }), error("mkdir src: full"));
    assert_eq!(session.advance(EventOf::Ack), ActionOf::Exit { code: 1 });
    assert_eq!(session.advance(EventOf::Ack), ActionOf::Exit { code: 1 });
}

#[test]
fn git_runs_unless_turned_off() {
    let mut session = Session::new(Some(s("g")), Some(s("C")), false);
    session.advance(EventOf::Exists { found: false });
    session.advance(EventOf::Ack);
    session.advance(EventOf::Ack);
    session.advance(EventOf::Location { path: s("/w/g") });
    let mut action = session.advance(EventOf::Ack);
    let mut runs = vec![];
    loop {
        let event = match &action {
            ActionOf::Exit { .. } => break,
            ActionOf::Run { program, args } => {
                runs.push(format!("{} {}", program, args.join(" ")));
                EventOf::Exited { success: true, code: Some(0) }
            },
            ActionOf::LookUp { .. } => EventOf::Hints { variable: None, executable: None, current: None },
            ActionOf::Probe { .. } => EventOf::Exists { found: true },
            _ => EventOf::Ack,
        };
        action = session.advance(event);
    }
    assert_eq!(runs, vec!["make all", "make lib", "make clean", "make run", "git init", "git branch -m main"]);
}
