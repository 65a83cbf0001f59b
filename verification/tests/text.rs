//! Rendering of lines, numerals, joined argument lists and the messages.

use init_project::display::{render_line, render_prompt, Tone};
use init_project::strings::{decimal_of_i32, decimal_of_u64, join_with, concat2, concat3};
use init_project::messages::{
    mkdir_failure, write_failure, written, command_line, spawn_failure, exit_failure,
    copy_failure, copied, project_done, HEADER_MISSING, GIT_READY,
};

#[test]
fn lines_have_colour_mark_and_reset() {
    assert_eq!(render_line(Tone::Success, "hecho"), "\x1b[32m✔  hecho\x1b[0m");
    assert_eq!(render_line(Tone::Progress, "va"), "\x1b[36m➜  va\x1b[0m");
    assert_eq!(render_line(Tone::Caution, "ojo"), "\x1b[33m⚠  ojo\x1b[0m");
    assert_eq!(render_line(Tone::Failure, "mal"), "\x1b[31m✖  ERROR: mal\x1b[0m");
}

#[test]
fn prompt_is_bold_with_trailing_space() {
    assert_eq!(render_prompt("Nombre:"), "\x1b[1mNombre:\x1b[0m ");
}

#[test]
fn decimal_numerals() {
    assert_eq!(decimal_of_u64(0), "0");
    assert_eq!(decimal_of_u64(7), "7");
    assert_eq!(decimal_of_u64(10), "10");
    assert_eq!(decimal_of_u64(1234567890), "1234567890");
    assert_eq!(decimal_of_u64(u64::MAX), u64::MAX.to_string());
    assert_eq!(decimal_of_i32(-1), "-1");
    assert_eq!(decimal_of_i32(255), "255");
    assert_eq!(decimal_of_i32(i32::MIN), i32::MIN.to_string());
    assert_eq!(decimal_of_i32(i32::MAX), i32::MAX.to_string());
}

#[test]
fn joining_texts() {
    let empty: Vec<String> = vec![];
    assert_eq!(join_with(&empty, " "), "");
    assert_eq!(join_with(&vec!["a".to_string()], " "), "a");
    assert_eq!(join_with(&vec!["-S".to_string(), ".".to_string(), "-B".to_string()], " "), "-S . -B");
    assert_eq!(concat2("ab", "cd"), "abcd");
    assert_eq!(concat3("a", "b", "c"), "abc");
}

#[test]
fn failure_messages() {
    assert_eq!(mkdir_failure("src", "denied"), "mkdir src: denied");
    assert_eq!(write_failure("nob.c", "disk full"), "Error escribiendo nob.c: disk full");
    assert_eq!(written("Makefile"), "Creado: Makefile");
    let args = vec!["branch".to_string(), "-m".to_string(), "main".to_string()];
    assert_eq!(command_line("git", &args), "git branch -m main");
    assert_eq!(
        spawn_failure("git", &args, "not found"),
        "No se pudo ejecutar 'git branch -m main': not found"
    );
    let all = vec!["all".to_string()];
    assert_eq!(exit_failure("make", &all, Some(2)), "'make all' salió con código 2");
    assert_eq!(exit_failure("make", &all, None), "'make all' salió con código -1");
    assert_eq!(
        copy_failure("/opt/nob.h", "nob.h", "denied"),
        "No se pudo copiar \"/opt/nob.h\" → nob.h: denied"
    );
    assert_eq!(copied("/opt/nob.h"), "nob.h copiado desde \"/opt/nob.h\"");
    assert_eq!(project_done("C++", "demo"), "Proyecto C++ 'demo' creado con éxito.");
    assert_eq!(
        HEADER_MISSING,
        "ERROR @ No se encontró nob.h. Usa NOB_PATH o instálalo en /usr/local/share/InitProject/"
    );
    assert_eq!(GIT_READY, "Repositorio git inicializado en rama 'main'.");
}

#[test]
fn path_in_messages_is_debug_quoted() {
    assert_eq!(copied("dir/with \"quote\""), "nob.h copiado desde \"dir/with \\\"quote\\\"\"");
}
