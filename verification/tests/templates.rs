//! The file contents against the texts that the `format!` templates give.

use init_project::templates::{
    makefile, c_main_source, c_module_source, c_header, c_nob_source, test_script, cmake_lists,
    cpp_main_source, cpp_module_source, cpp_header, cpp_nob_source, readme, GITIGNORE_C,
    GITIGNORE_CPP,
};

#[test]
fn makefile_matches_template() {
    let name = "demo_app";
    let upper = "DEMO_APP";
    let _ = (name, upper);
    let expected = format!(
        r#"SRDIR   = src/
TESTDIR = test/
SRC     = $(wildcard $(SRDIR)*.c)
NAME    = bin/{name}
OBJS    = $(SRC:.c=.o)
CC      = gcc
CFLAGS  = -Wall -Wextra -Werror -Iinclude
TFLAGS  = -shared -fPIC -Iinclude
RM      = rm -rf

all: $(NAME)

$(SRDIR)%.o: $(SRDIR)%.c
{0}$(CC) $(CFLAGS) -c $< -o $@

$(NAME): $(OBJS)
{0}$(CC) $(CFLAGS) -o $(NAME) $(OBJS)

lib: $(OBJS)
{0}$(CC) $(TFLAGS) -o $(TESTDIR)libtest.so $(OBJS)
{0}chmod +x $(TESTDIR)test.py

clean:
{0}$(RM) $(OBJS)

fclean: clean
{0}$(RM) $(NAME) $(TESTDIR)libtest.so

run:
{0}./$(NAME)

re: fclean all

.PHONY: all clean fclean re run lib
"#, "\t"
    );
    assert_eq!(makefile(name), expected);
}

#[test]
fn c_main_source_matches_template() {
    let name = "demo_app";
    let upper = "DEMO_APP";
    let _ = (name, upper);
    let expected = format!(
        r#"#include <{name}.h>

int{0}main(int argc, char **argv)
{{
{0}int nb = 42;

{0}if (argc && argv)
{0}{0}printf("Hello, World!\n%d * %d == %d\n", nb, nb, square(nb));

{0}return (0);
}}
"#, "\t"
    );
    assert_eq!(c_main_source(name), expected);
}

#[test]
fn c_module_source_matches_template() {
    let name = "demo_app";
    let upper = "DEMO_APP";
    let _ = (name, upper);
    let expected = format!(
        r#"#include <{name}.h>

int{0}square(int num)
{{
{0}return (num * num);
}}
"#, "\t"
    );
    assert_eq!(c_module_source(name), expected);
}

#[test]
fn c_header_matches_template() {
    let name = "demo_app";
    let upper = "DEMO_APP";
    let _ = (name, upper);
    let expected = format!(
        r#"#ifndef {upper}_H
#define {upper}_H

#include <stdio.h>
#include <stdlib.h>
#include <unistd.h>

#define errf(fmt, args...) do {{ fprintf(stderr, "ERROR @ %s(): ", __func__); fprintf(stderr, fmt, ##args); }} while (0)
#define ERROR_EXIT(...)    do {{ fprintf(stderr, __VA_ARGS__); exit(1); }} while (0)
#define ERROR_RETURN(R, ...) do {{ fprintf(stderr, __VA_ARGS__); return R; }} while (0)

int{0}square(int);

#endif
"#, "\t"
    );
    assert_eq!(c_header(upper), expected);
}

#[test]
fn c_nob_source_matches_template() {
    let name = "demo_app";
    let upper = "DEMO_APP";
    let _ = (name, upper);
    let expected = format!(
        r#"#define NOB_IMPLEMENTATION
#include "nob.h"
#include <string.h>
#include <stdio.h>
#include <unistd.h>

int{0}main(int argc, char **argv)
{{
{0}NOB_GO_REBUILD_URSELF(argc, argv);
{0}nob_shift_args(&argc, &argv);

{0}Nob_Cmd cmd = {{0}};
{0}int clean_executed = 0;

{0}nob_cmd_append(&cmd, "make", NULL);
{0}if (!nob_cmd_run_sync(cmd)) return (1);

{0}if (argc > 0)
{0}{{
{0}{0}const char *subcmd = nob_shift_args(&argc, &argv);

{0}{0}if (strcmp(subcmd, "test") == 0)
{0}{0}{{
{0}{0}{0}cmd.count = 0;
{0}{0}{0}nob_cmd_append(&cmd, "make", "lib");
{0}{0}{0}nob_da_append_many(&cmd, argv, argc);
{0}{0}{0}if (!nob_cmd_run_sync(cmd)) return (1);

{0}{0}cmd.count = 0;
{0}{0}nob_cmd_append(&cmd, "make", "clean");
{0}{0}if (!nob_cmd_run_sync(cmd)) return (1);
{0}{0}clean_executed = 1;

{0}{0}if (chdir("./test") != 0) {{ perror("chdir"); return (1); }}

{0}{0}cmd.count = 0;
{0}{0}nob_cmd_append(&cmd, "./test.py", NULL);
{0}{0}if (!nob_cmd_run_sync(cmd)) return (1);

{0}{0}if (chdir("../") != 0) {{ perror("chdir"); return (1); }}
{0}{0}}}
{0}{0}else if (strcmp(subcmd, "run") == 0)
{0}{0}{{
{0}{0}{0}cmd.count = 0;
{0}{0}{0}nob_cmd_append(&cmd, "./bin/{name}", NULL);
{0}{0}{0}if (!nob_cmd_run_sync(cmd)) return (1);
{0}{0}}}
{0}{0}else
{0}{0}{{
{0}{0}{0}nob_log(NOB_ERROR, "Subcomando desconocido: %s", subcmd);
{0}{0}{0}return (1);
{0}{0}}}
{0}}}

{0}if (!clean_executed)
{0}{{
{0}{0}cmd.count = 0;
{0}{0}nob_cmd_append(&cmd, "make", "clean");
{0}{0}if (!nob_cmd_run_sync(cmd)) return (1);
{0}}}

{0}return (0);
}}
"#, "\t"
    );
    assert_eq!(c_nob_source(name), expected);
}

#[test]
fn test_script_matches_template() {
    let name = "demo_app";
    let upper = "DEMO_APP";
    let _ = (name, upper);
    let expected = format!(
        r#"#!/usr/bin/python3

import ctypes
import unittest

mylib = ctypes.CDLL('./libtest.so')
mylib.square.restype = ctypes.c_int
mylib.square.argtypes = [ctypes.c_int]

class SquareTest(unittest.TestCase):
{0}def test_square_positive(self):
{0}{0}self.assertEqual(mylib.square(2), 4)
{0}{0}self.assertEqual(mylib.square(0), 0)
{0}{0}self.assertEqual(mylib.square(42), 1764)

{0}def test_square_negative(self):
{0}{0}self.assertEqual(mylib.square(-3), 9)

if __name__ == '__main__':
{0}unittest.main()
    "#, "\t"
    );
    assert_eq!(test_script(), expected);
}

#[test]
fn cmake_lists_matches_template() {
    let name = "demo_app";
    let upper = "DEMO_APP";
    let _ = (name, upper);
    let expected = format!(
        r#"cmake_minimum_required(VERSION 3.25)

project({name})

set(CMAKE_CXX_STANDARD 20)
set(CMAKE_CXX_STANDARD_REQUIRED True)

set(SRCS
    src/main.cpp
    src/{name}.cpp
)

include_directories(${{CMAKE_SOURCE_DIR}}/include)

add_executable({name} ${{SRCS}})
"#
    );
    assert_eq!(cmake_lists(name), expected);
}

#[test]
fn cpp_main_source_matches_template() {
    let name = "demo_app";
    let upper = "DEMO_APP";
    let _ = (name, upper);
    let expected = format!(
        r#"#include <{name}.h>

int main(int argc, char **argv)
{{
{0}if (argc && argv)
{0}{0}std::cout << "Hello from {name}!" << std::endl;
{0}return (0);
}}
"#, "\t"
    );
    assert_eq!(cpp_main_source(name), expected);
}

#[test]
fn cpp_module_source_matches_template() {
    let name = "demo_app";
    let upper = "DEMO_APP";
    let _ = (name, upper);
    let expected = format!(
        r#"#include <{name}.h>

// Implementa aquí las funciones de {name}
        "#
    );
    assert_eq!(cpp_module_source(name), expected);
}

#[test]
fn cpp_header_matches_template() {
    let name = "demo_app";
    let upper = "DEMO_APP";
    let _ = (name, upper);
    let expected = format!(
        r#"#ifndef {upper}_H
#define {upper}_H

#include <cstdio>
#include <cstdlib>
#include <unistd.h>
#include <iostream>
#include <string>

#define errf(fmt, args...) do {{ printf("ERROR @ %s(): ", __func__); printf(fmt, ##args); }} while (0)
#define ERROR_EXIT(...)    do {{ fprintf(stderr, __VA_ARGS__); exit(1); }} while (0)
#define ERROR_RETURN(R, ...) do {{ fprintf(stderr, __VA_ARGS__); return R; }} while (0)

#endif
        "#
    );
    assert_eq!(cpp_header(upper), expected);
}

#[test]
fn cpp_nob_source_matches_template() {
    let name = "demo_app";
    let upper = "DEMO_APP";
    let _ = (name, upper);
    let expected = format!(
        r#"#define NOB_IMPLEMENTATION
#include "nob.h"
#include <stdlib.h>
#include <stdio.h>
#include <unistd.h>

int{0}main(int argc, char **argv)
{{
{0}NOB_GO_REBUILD_URSELF(argc, argv);
{0}nob_shift_args(&argc, &argv);

{0}Nob_Cmd cmd = {{0}};

{0}nob_cmd_append(&cmd, "cmake", "--build", "build", NULL);
{0}if (!nob_cmd_run_sync(cmd)) return (1);

{0}if (argc > 0)
{0}{{
{0}{0}const char *subcmd = nob_shift_args(&argc, &argv);

{0}{0}if (strcmp(subcmd, "run") == 0)
{0}{0}{{
{0}{0}{0}cmd.count = 0;
{0}{0}{0}nob_cmd_append(&cmd, "./build/{name}", NULL);
{0}{0}{0}if (!nob_cmd_run_sync(cmd)) return (1);
{0}{0}}}
{0}{0}else if (strcmp(subcmd, "clean") == 0)
{0}{0}{{
{0}{0}{0}cmd.count = 0;
{0}{0}{0}nob_cmd_append(&cmd, "cmake", "--build", "build", "--target", "clean", NULL);
{0}{0}{0}if (!nob_cmd_run_sync(cmd)) return (1);
{0}{0}}}
{0}{0}else
{0}{0}{{
{0}{0}{0}nob_log(NOB_ERROR, "Subcomando desconocido: %s", subcmd);
{0}{0}{0}return (1);
{0}{0}}}
{0}}}

{0}return (0);
}}
"#, "\t"
    );
    assert_eq!(cpp_nob_source(name), expected);
}

#[test]
fn readme_matches_template() {
    let name = "demo_app";
    let lang = "C++";
    let expected = format!(
        "# {name}\n\nProyecto {lang} generado con InitProject.\n\n## Build\n\nVer `Makefile` o `CMakeLists.txt`.\n"
    );
    assert_eq!(readme(name, lang), expected);
}

#[test]
fn gitignores_list_build_outputs() {
    assert_eq!(GITIGNORE_C, "bin/\n*.o\ntest/libtest.so\nnob.h\n");
    assert_eq!(GITIGNORE_CPP, "build/\nnob.h\n*.o\n");
}

#[test]
fn header_guard_uses_given_upper_case() {
    let text = c_header("MY_LIB");
    assert!(text.starts_with("#ifndef MY_LIB_H\n#define MY_LIB_H\n"));
    let text = cpp_header("MY_LIB");
    assert!(text.starts_with("#ifndef MY_LIB_H\n#define MY_LIB_H\n"));
}

#[test]
fn makefile_names_binary() {
    assert!(makefile("calc").contains("NAME    = bin/calc\n"));
    assert!(makefile("calc").contains("\t$(CC) $(CFLAGS) -c $< -o $@\n"));
}
