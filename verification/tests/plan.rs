//! The steps of C and C++ projects.

use init_project::plan::{
    create_c_project, create_cpp_project, c_project_plan, cpp_project_plan, init_git, write_readme, write_gitignore_c,
    write_gitignore_cpp, StepOf, Step,
};
use init_project::templates::{readme, c_header, cpp_header, GITIGNORE_C, GITIGNORE_CPP};

fn run(program: &str, args: &[&str]) -> Step {
    StepOf::Run { program: program.to_string(), args: args.iter().map(|a| a.to_string()).collect() }
}

fn mkdir(path: &str) -> Step {
    StepOf::MakeDir { path: path.to_string() }
}

fn paths_written(steps: &[Step]) -> Vec<String> {
    steps
        .iter()
        .filter_map(|s| match s {
            StepOf::Write { path, .. } => Some(path.clone()),
            _ => None,
        })
        .collect()
}

#[test]
fn c_project_with_git() {
    let steps = create_c_project("calc", true);
    assert_eq!(steps.len(), 21);
    assert_eq!(&steps[0..4], &[mkdir("src"), mkdir("include"), mkdir("test"), mkdir("bin")]);
    assert_eq!(steps[4], StepOf::InstallHeader);
    assert_eq!(
        paths_written(&steps),
        vec![
            "Makefile", "src/main.c", "src/calc.c", "include/calc.h", "nob.c", "test/test.py",
            "README.md", ".gitignore",
        ]
    );
    assert_eq!(steps[13], run("make", &["all"]));
    assert_eq!(steps[14], run("make", &["lib"]));
    assert_eq!(steps[15], run("make", &["clean"]));
    assert_eq!(steps[16], run("make", &["run"]));
    assert_eq!(steps[17], run("git", &["init"]));
    assert_eq!(steps[18], run("git", &["branch", "-m", "main"]));
    assert_eq!(
        steps[19],
        StepOf::Announce { text: "Repositorio git inicializado en rama 'main'.".to_string() }
    );
    assert_eq!(steps[20], StepOf::Announce { text: "Proyecto C 'calc' creado con éxito.".to_string() });
    assert_eq!(
        steps[8],
        StepOf::Write { path: "include/calc.h".to_string(), content: c_header("CALC") }
    );
    assert_eq!(
        steps[11],
        StepOf::Write { path: "README.md".to_string(), content: readme("calc", "C") }
    );
}

#[test]
fn c_project_without_git() {
    let steps = create_c_project("calc", false);
    assert_eq!(steps.len(), 18);
    assert!(!steps.iter().any(|s| matches!(s, StepOf::Run { program, .. } if program == "git")));
    assert_eq!(steps[17], StepOf::Announce { text: "Proyecto C 'calc' creado con éxito.".to_string() });
}

#[test]
fn cpp_project_with_and_without_git() {
    let steps = create_cpp_project("Motor", false);
    assert_eq!(steps.len(), 15);
    assert_eq!(&steps[0..4], &[mkdir("src"), mkdir("include"), mkdir("test"), mkdir("build")]);
    assert_eq!(steps[4], StepOf::InstallHeader);
    assert_eq!(
        paths_written(&steps),
        vec!["CMakeLists.txt", "src/main.cpp", "src/Motor.cpp", "include/Motor.h", "nob.c", "README.md", ".gitignore"]
    );
    assert_eq!(
        steps[8],
        StepOf::Write { path: "include/Motor.h".to_string(), content: cpp_header("MOTOR") }
    );
    assert_eq!(steps[12], run("cmake", &["-S", ".", "-B", "build"]));
    assert_eq!(steps[13], run("cmake", &["--build", "build"]));
    assert_eq!(steps[14], StepOf::Announce { text: "Proyecto C++ 'Motor' creado con éxito.".to_string() });
    let with_git = create_cpp_project("Motor", true);
    assert_eq!(with_git.len(), 18);
    assert_eq!(with_git[14], run("git", &["init"]));
}

#[test]
fn header_guard_is_upper_case_of_name() {
    let steps = create_c_project("mi_proyecto", false);
    match &steps[8] {
        StepOf::Write { content, .. } => assert!(content.starts_with("#ifndef MI_PROYECTO_H\n")),
        other => panic!("unexpected step {:?}", other),
    }
}

#[test]
fn plans_take_the_guard_as_given() {
    assert_eq!(c_project_plan("calc", "CALC", true), create_c_project("calc", true));
    assert_eq!(cpp_project_plan("Motor", "MOTOR", false), create_cpp_project("Motor", false));
    match &c_project_plan("calc", "GUARD", false)[8] {
        StepOf::Write { content, .. } => assert!(content.starts_with("#ifndef GUARD_H\n")),
        other => panic!("unexpected step {:?}", other),
    }
}

#[test]
fn single_steps() {
    assert_eq!(
        write_readme("x", "C"),
        StepOf::Write { path: "README.md".to_string(), content: readme("x", "C") }
    );
    assert_eq!(
        write_gitignore_c(),
        StepOf::Write { path: ".gitignore".to_string(), content: GITIGNORE_C.to_string() }
    );
    assert_eq!(
        write_gitignore_cpp(),
        StepOf::Write { path: ".gitignore".to_string(), content: GITIGNORE_CPP.to_string() }
    );
    let git = init_git();
    assert_eq!(git.len(), 3);
    assert_eq!(git[0], run("git", &["init"]));
    assert_eq!(git[1], run("git", &["branch", "-m", "main"]));
}

fn apply(files: &mut std::collections::BTreeMap<String, String>, steps: &[Step]) {
    for step in steps {
        match step {
            StepOf::Write { path, content } => {
                files.insert(path.clone(), content.clone());
            },
            StepOf::InstallHeader => {
                files.insert("nob.h".to_string(), "// nob".to_string());
            },
            _ => {},
        }
    }
}

#[test]
fn repeated_writes_replace_contents() {
    // Writing each step's content into a map, as the program's writes do,
    // twice over gives the same files as once.
    let plan = create_c_project("calc", true);
    let mut once = std::collections::BTreeMap::new();
    apply(&mut once, &plan);
    let mut twice = once.clone();
    apply(&mut twice, &create_c_project("calc", true));
    assert_eq!(once, twice);
    assert_eq!(once.len(), 9);

    let mut files = std::collections::BTreeMap::new();
    apply(&mut files, &[write_gitignore_c(), write_gitignore_cpp()]);
    assert_eq!(files[".gitignore"], GITIGNORE_CPP);
    assert!(!files[".gitignore"].contains("bin/"));
}
