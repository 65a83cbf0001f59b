//! The contents of the files that a new project starts with. Each text is a
//! fixed skeleton with the project's name (or its upper-case form) filled in
//! at the marked places.

use vstd::prelude::*;
use crate::strings::concat3;

verus! {

/// `a`, `v`, `b`, `v`, `c`.
fn fill_two(a: &str, v: &str, b: &str, c: &str) -> (res: String)
    ensures
        res@ == a@ + v@ + b@ + v@ + c@,
{
    let mut s = concat3(a, v, b);
    s.append(v);
    s.append(c);
    s
}

/// `a`, `v`, `b`, `v`, `c`, `v`, `d`.
fn fill_three(a: &str, v: &str, b: &str, c: &str, d: &str) -> (res: String)
    ensures
        res@ == a@ + v@ + b@ + v@ + c@ + v@ + d@,
{
    let mut s = fill_two(a, v, b, c);
    s.append(v);
    s.append(d);
    s
}

/// Part 1 of 2 of the text of `makefile`.
pub const MAKEFILE_0: &'static str = "SRDIR   = src/
TESTDIR = test/
SRC     = $(wildcard $(SRDIR)*.c)
NAME    = bin/";

/// Part 2 of 2 of the text of `makefile`.
pub const MAKEFILE_1: &'static str = "
OBJS    = $(SRC:.c=.o)
CC      = gcc
CFLAGS  = -Wall -Wextra -Werror -Iinclude
TFLAGS  = -shared -fPIC -Iinclude
RM      = rm -rf

all: $(NAME)

$(SRDIR)%.o: $(SRDIR)%.c
\t$(CC) $(CFLAGS) -c $< -o $@

$(NAME): $(OBJS)
\t$(CC) $(CFLAGS) -o $(NAME) $(OBJS)

lib: $(OBJS)
\t$(CC) $(TFLAGS) -o $(TESTDIR)libtest.so $(OBJS)
\tchmod +x $(TESTDIR)test.py

clean:
\t$(RM) $(OBJS)

fclean: clean
\t$(RM) $(NAME) $(TESTDIR)libtest.so

run:
\t./$(NAME)

re: fclean all

.PHONY: all clean fclean re run lib
";

/// The `Makefile` of a C project: builds `bin/<name>` from `src/*.c`, and a shared library for the tests.
pub open spec fn makefile_text(name: Seq<char>) -> Seq<char> {
    MAKEFILE_0@ + name + MAKEFILE_1@
}

/// The `Makefile` of a C project: builds `bin/<name>` from `src/*.c`, and a shared library for the tests.
pub fn makefile(name: &str) -> (res: String)
    ensures
        res@ == makefile_text(name@),
{
    concat3(MAKEFILE_0, name, MAKEFILE_1)
}

/// Part 1 of 2 of the text of `c_main_source`.
pub const C_MAIN_0: &'static str = "#include <";

/// Part 2 of 2 of the text of `c_main_source`.
pub const C_MAIN_1: &'static str = ".h>

int\tmain(int argc, char **argv)
{
\tint nb = 42;

\tif (argc && argv)
\t\tprintf(\"Hello, World!\\n%d * %d == %d\\n\", nb, nb, square(nb));

\treturn (0);
}
";

/// The `src/main.c` of a C project: prints a greeting and a square.
pub open spec fn c_main_source_text(name: Seq<char>) -> Seq<char> {
    C_MAIN_0@ + name + C_MAIN_1@
}

/// The `src/main.c` of a C project: prints a greeting and a square.
pub fn c_main_source(name: &str) -> (res: String)
    ensures
        res@ == c_main_source_text(name@),
{
    concat3(C_MAIN_0, name, C_MAIN_1)
}

/// Part 1 of 2 of the text of `c_module_source`.
pub const C_SOURCE_0: &'static str = "#include <";

/// Part 2 of 2 of the text of `c_module_source`.
pub const C_SOURCE_1: &'static str = ".h>

int\tsquare(int num)
{
\treturn (num * num);
}
";

/// The `src/<name>.c` of a C project: defines `square`.
pub open spec fn c_module_source_text(name: Seq<char>) -> Seq<char> {
    C_SOURCE_0@ + name + C_SOURCE_1@
}

/// The `src/<name>.c` of a C project: defines `square`.
pub fn c_module_source(name: &str) -> (res: String)
    ensures
        res@ == c_module_source_text(name@),
{
    concat3(C_SOURCE_0, name, C_SOURCE_1)
}

/// Part 1 of 3 of the text of `c_header`.
pub const C_HEADER_0: &'static str = "#ifndef ";

/// Part 2 of 3 of the text of `c_header`.
pub const C_HEADER_1: &'static str = "_H
#define ";

/// Part 3 of 3 of the text of `c_header`.
pub const C_HEADER_2: &'static str = "_H

#include <stdio.h>
#include <stdlib.h>
#include <unistd.h>

#define errf(fmt, args...) do { fprintf(stderr, \"ERROR @ %s(): \", __func__); fprintf(stderr, fmt, ##args); } while (0)
#define ERROR_EXIT(...)    do { fprintf(stderr, __VA_ARGS__); exit(1); } while (0)
#define ERROR_RETURN(R, ...) do { fprintf(stderr, __VA_ARGS__); return R; } while (0)

int\tsquare(int);

#endif
";

/// The `include/<name>.h` of a C project, guarded by `<upper>_H`.
pub open spec fn c_header_text(upper: Seq<char>) -> Seq<char> {
    C_HEADER_0@ + upper + C_HEADER_1@ + upper + C_HEADER_2@
}

/// The `include/<name>.h` of a C project, guarded by `<upper>_H`.
pub fn c_header(upper: &str) -> (res: String)
    ensures
        res@ == c_header_text(upper@),
{
    fill_two(C_HEADER_0, upper, C_HEADER_1, C_HEADER_2)
}

/// Part 1 of 2 of the text of `c_nob_source`.
pub const C_NOB_0: &'static str = "#define NOB_IMPLEMENTATION
#include \"nob.h\"
#include <string.h>
#include <stdio.h>
#include <unistd.h>

int\tmain(int argc, char **argv)
{
\tNOB_GO_REBUILD_URSELF(argc, argv);
\tnob_shift_args(&argc, &argv);

\tNob_Cmd cmd = {0};
\tint clean_executed = 0;

\tnob_cmd_append(&cmd, \"make\", NULL);
\tif (!nob_cmd_run_sync(cmd)) return (1);

\tif (argc > 0)
\t{
\t\tconst char *subcmd = nob_shift_args(&argc, &argv);

\t\tif (strcmp(subcmd, \"test\") == 0)
\t\t{
\t\t\tcmd.count = 0;
\t\t\tnob_cmd_append(&cmd, \"make\", \"lib\");
\t\t\tnob_da_append_many(&cmd, argv, argc);
\t\t\tif (!nob_cmd_run_sync(cmd)) return (1);

\t\tcmd.count = 0;
\t\tnob_cmd_append(&cmd, \"make\", \"clean\");
\t\tif (!nob_cmd_run_sync(cmd)) return (1);
\t\tclean_executed = 1;

\t\tif (chdir(\"./test\") != 0) { perror(\"chdir\"); return (1); }

\t\tcmd.count = 0;
\t\tnob_cmd_append(&cmd, \"./test.py\", NULL);
\t\tif (!nob_cmd_run_sync(cmd)) return (1);

\t\tif (chdir(\"../\") != 0) { perror(\"chdir\"); return (1); }
\t\t}
\t\telse if (strcmp(subcmd, \"run\") == 0)
\t\t{
\t\t\tcmd.count = 0;
\t\t\tnob_cmd_append(&cmd, \"./bin/";

/// Part 2 of 2 of the text of `c_nob_source`.
pub const C_NOB_1: &'static str = "\", NULL);
\t\t\tif (!nob_cmd_run_sync(cmd)) return (1);
\t\t}
\t\telse
\t\t{
\t\t\tnob_log(NOB_ERROR, \"Subcomando desconocido: %s\", subcmd);
\t\t\treturn (1);
\t\t}
\t}

\tif (!clean_executed)
\t{
\t\tcmd.count = 0;
\t\tnob_cmd_append(&cmd, \"make\", \"clean\");
\t\tif (!nob_cmd_run_sync(cmd)) return (1);
\t}

\treturn (0);
}
";

/// The `nob.c` of a C project: a build driver with the subcommands `test` and `run`.
pub open spec fn c_nob_source_text(name: Seq<char>) -> Seq<char> {
    C_NOB_0@ + name + C_NOB_1@
}

/// The `nob.c` of a C project: a build driver with the subcommands `test` and `run`.
pub fn c_nob_source(name: &str) -> (res: String)
    ensures
        res@ == c_nob_source_text(name@),
{
    concat3(C_NOB_0, name, C_NOB_1)
}

/// The `test/test.py` of a C project: tests `square` through the shared library.
pub const TEST_PY: &'static str = "#!/usr/bin/python3

import ctypes
import unittest

mylib = ctypes.CDLL('./libtest.so')
mylib.square.restype = ctypes.c_int
mylib.square.argtypes = [ctypes.c_int]

class SquareTest(unittest.TestCase):
\tdef test_square_positive(self):
\t\tself.assertEqual(mylib.square(2), 4)
\t\tself.assertEqual(mylib.square(0), 0)
\t\tself.assertEqual(mylib.square(42), 1764)

\tdef test_square_negative(self):
\t\tself.assertEqual(mylib.square(-3), 9)

if __name__ == '__main__':
\tunittest.main()
    ";

/// The `test/test.py` of a C project: tests `square` through the shared library.
pub fn test_script() -> (res: String)
    ensures
        res@ == TEST_PY@,
{
    String::from_str(TEST_PY)
}

/// Part 1 of 4 of the text of `cmake_lists`.
pub const CMAKE_0: &'static str = "cmake_minimum_required(VERSION 3.25)

project(";

/// Part 2 of 4 of the text of `cmake_lists`.
pub const CMAKE_1: &'static str = ")

set(CMAKE_CXX_STANDARD 20)
set(CMAKE_CXX_STANDARD_REQUIRED True)

set(SRCS
    src/main.cpp
    src/";

/// Part 3 of 4 of the text of `cmake_lists`.
pub const CMAKE_2: &'static str = ".cpp
)

include_directories(${CMAKE_SOURCE_DIR}/include)

add_executable(";

/// Part 4 of 4 of the text of `cmake_lists`.
pub const CMAKE_3: &'static str = " ${SRCS})
";

/// The `CMakeLists.txt` of a C++ project.
pub open spec fn cmake_lists_text(name: Seq<char>) -> Seq<char> {
    CMAKE_0@ + name + CMAKE_1@ + name + CMAKE_2@ + name + CMAKE_3@
}

/// The `CMakeLists.txt` of a C++ project.
pub fn cmake_lists(name: &str) -> (res: String)
    ensures
        res@ == cmake_lists_text(name@),
{
    fill_three(CMAKE_0, name, CMAKE_1, CMAKE_2, CMAKE_3)
}

/// Part 1 of 3 of the text of `cpp_main_source`.
pub const CPP_MAIN_0: &'static str = "#include <";

/// Part 2 of 3 of the text of `cpp_main_source`.
pub const CPP_MAIN_1: &'static str = ".h>

int main(int argc, char **argv)
{
\tif (argc && argv)
\t\tstd::cout << \"Hello from ";

/// Part 3 of 3 of the text of `cpp_main_source`.
pub const CPP_MAIN_2: &'static str = "!\" << std::endl;
\treturn (0);
}
";

/// The `src/main.cpp` of a C++ project: prints a greeting.
pub open spec fn cpp_main_source_text(name: Seq<char>) -> Seq<char> {
    CPP_MAIN_0@ + name + CPP_MAIN_1@ + name + CPP_MAIN_2@
}

/// The `src/main.cpp` of a C++ project: prints a greeting.
pub fn cpp_main_source(name: &str) -> (res: String)
    ensures
        res@ == cpp_main_source_text(name@),
{
    fill_two(CPP_MAIN_0, name, CPP_MAIN_1, CPP_MAIN_2)
}

/// Part 1 of 3 of the text of `cpp_module_source`.
pub const CPP_SOURCE_0: &'static str = "#include <";

/// Part 2 of 3 of the text of `cpp_module_source`.
pub const CPP_SOURCE_1: &'static str = ".h>

// Implementa aquí las funciones de ";

/// Part 3 of 3 of the text of `cpp_module_source`.
pub const CPP_SOURCE_2: &'static str = "
        ";

/// The `src/<name>.cpp` of a C++ project.
pub open spec fn cpp_module_source_text(name: Seq<char>) -> Seq<char> {
    CPP_SOURCE_0@ + name + CPP_SOURCE_1@ + name + CPP_SOURCE_2@
}

/// The `src/<name>.cpp` of a C++ project.
pub fn cpp_module_source(name: &str) -> (res: String)
    ensures
        res@ == cpp_module_source_text(name@),
{
    fill_two(CPP_SOURCE_0, name, CPP_SOURCE_1, CPP_SOURCE_2)
}

/// Part 1 of 3 of the text of `cpp_header`.
pub const CPP_HEADER_0: &'static str = "#ifndef ";

/// Part 2 of 3 of the text of `cpp_header`.
pub const CPP_HEADER_1: &'static str = "_H
#define ";

/// Part 3 of 3 of the text of `cpp_header`.
pub const CPP_HEADER_2: &'static str = "_H

#include <cstdio>
#include <cstdlib>
#include <unistd.h>
#include <iostream>
#include <string>

#define errf(fmt, args...) do { printf(\"ERROR @ %s(): \", __func__); printf(fmt, ##args); } while (0)
#define ERROR_EXIT(...)    do { fprintf(stderr, __VA_ARGS__); exit(1); } while (0)
#define ERROR_RETURN(R, ...) do { fprintf(stderr, __VA_ARGS__); return R; } while (0)

#endif
        ";

/// The `include/<name>.h` of a C++ project, guarded by `<upper>_H`.
pub open spec fn cpp_header_text(upper: Seq<char>) -> Seq<char> {
    CPP_HEADER_0@ + upper + CPP_HEADER_1@ + upper + CPP_HEADER_2@
}

/// The `include/<name>.h` of a C++ project, guarded by `<upper>_H`.
pub fn cpp_header(upper: &str) -> (res: String)
    ensures
        res@ == cpp_header_text(upper@),
{
    fill_two(CPP_HEADER_0, upper, CPP_HEADER_1, CPP_HEADER_2)
}

/// Part 1 of 2 of the text of `cpp_nob_source`.
pub const CPP_NOB_0: &'static str = "#define NOB_IMPLEMENTATION
#include \"nob.h\"
#include <stdlib.h>
#include <stdio.h>
#include <unistd.h>

int\tmain(int argc, char **argv)
{
\tNOB_GO_REBUILD_URSELF(argc, argv);
\tnob_shift_args(&argc, &argv);

\tNob_Cmd cmd = {0};

\tnob_cmd_append(&cmd, \"cmake\", \"--build\", \"build\", NULL);
\tif (!nob_cmd_run_sync(cmd)) return (1);

\tif (argc > 0)
\t{
\t\tconst char *subcmd = nob_shift_args(&argc, &argv);

\t\tif (strcmp(subcmd, \"run\") == 0)
\t\t{
\t\t\tcmd.count = 0;
\t\t\tnob_cmd_append(&cmd, \"./build/";

/// Part 2 of 2 of the text of `cpp_nob_source`.
pub const CPP_NOB_1: &'static str = "\", NULL);
\t\t\tif (!nob_cmd_run_sync(cmd)) return (1);
\t\t}
\t\telse if (strcmp(subcmd, \"clean\") == 0)
\t\t{
\t\t\tcmd.count = 0;
\t\t\tnob_cmd_append(&cmd, \"cmake\", \"--build\", \"build\", \"--target\", \"clean\", NULL);
\t\t\tif (!nob_cmd_run_sync(cmd)) return (1);
\t\t}
\t\telse
\t\t{
\t\t\tnob_log(NOB_ERROR, \"Subcomando desconocido: %s\", subcmd);
\t\t\treturn (1);
\t\t}
\t}

\treturn (0);
}
";

/// The `nob.c` of a C++ project: a build driver with the subcommands `run` and `clean`.
pub open spec fn cpp_nob_source_text(name: Seq<char>) -> Seq<char> {
    CPP_NOB_0@ + name + CPP_NOB_1@
}

/// The `nob.c` of a C++ project: a build driver with the subcommands `run` and `clean`.
pub fn cpp_nob_source(name: &str) -> (res: String)
    ensures
        res@ == cpp_nob_source_text(name@),
{
    concat3(CPP_NOB_0, name, CPP_NOB_1)
}

/// The `README.md` of a project in the language `lang`.
pub open spec fn readme_text(name: Seq<char>, lang: Seq<char>) -> Seq<char> {
    README_0@ + name + README_1@ + lang + README_2@
}

/// Part 1 of 3 of the text of `readme`.
pub const README_0: &'static str = "# ";

/// Part 2 of 3 of the text of `readme`.
pub const README_1: &'static str = "\n\nProyecto ";

/// Part 3 of 3 of the text of `readme`.
pub const README_2: &'static str = " generado con InitProject.\n\n## Build\n\nVer `Makefile` o `CMakeLists.txt`.\n";

/// The `README.md` of a project in the language `lang`.
pub fn readme(name: &str, lang: &str) -> (res: String)
    ensures
        res@ == readme_text(name@, lang@),
{
    let mut s = concat3(README_0, name, README_1);
    s.append(lang);
    s.append(README_2);
    s
}

/// The `.gitignore` of a C project.
pub const GITIGNORE_C: &'static str = "bin/\n*.o\ntest/libtest.so\nnob.h\n";

/// The `.gitignore` of a C++ project.
pub const GITIGNORE_CPP: &'static str = "build/\nnob.h\n*.o\n";

} // verus!
