use vstd::prelude::*;
use crate::detect::Stack;
use crate::text::{
    contains, ends_with, lemma_contains_at, lemma_ends_with_append, lemma_occurs_before_join,
    lemma_starts_with_contains, lemma_contains_itself, lemma_woven_in_order, occurs_before, in_order,
    woven, starts_with, group_occurrence,
};

verus! {

/// The first line of every generated Dockerfile.
pub const SYNTAX: &'static str = "# syntax=docker/dockerfile:1\n";

pub const RUST_BUILD_FROM: &'static str = "FROM rust:1-slim AS build\n";

pub const RUST_BUILD_STEPS: &'static str = "WORKDIR /app\nCOPY Cargo.toml Cargo.lock ./\nCOPY src ./src\nRUN cargo build --release\n";

pub const RUST_RUNTIME_FROM: &'static str = "\nFROM debian:bookworm-slim\n";

pub const RUST_RUNTIME_STEPS: &'static str = "RUN apt-get update && apt-get install -y --no-install-recommends ca-certificates && rm -rf /var/lib/apt/lists/*\nWORKDIR /app";

pub const RUST_COPY_BINARY: &'static str = "\nCOPY --from=build /app/target/release/";

pub const RUST_BINARY_DEST: &'static str = " ./app\nEXPOSE 8080\n";

pub const RUST_CMD: &'static str = "CMD [\"./app\"]\n";

/// What stands in the Rust `COPY --from=build` line when the binary's name is
/// not known.
pub const BINARY_PLACEHOLDER: &'static str = "REPLACE_WITH_YOUR_BINARY_NAME";

pub const NODE_BUILD_FROM: &'static str = "FROM node:20-slim AS build\n";

pub const NODE_BUILD_STEPS: &'static str = "WORKDIR /app\nCOPY package.json ./\nCOPY . .\nRUN ";

pub const NODE_NEXT_RUN: &'static str = "\nRUN ";

pub const NODE_RUNTIME_STAGE: &'static str = "\n\nFROM node:20-slim\nWORKDIR /app\n";

pub const NODE_COPY_APP: &'static str = "COPY --from=build /app .\nEXPOSE 3000\n";

pub const NODE_CMD_OPEN: &'static str = "CMD [\"";

pub const NODE_CMD_SEP: &'static str = "\", \"";

pub const NODE_CMD_CLOSE: &'static str = "\"]\n";

pub const PYTHON_BUILD_FROM: &'static str = "FROM python:3.12-slim AS build\n";

pub const PYTHON_BUILD_STEPS: &'static str = "WORKDIR /app\nCOPY . .\nRUN if [ -f requirements.txt ]; then pip install --no-cache-dir --prefix=/install -r requirements.txt; \\\n    elif [ -f pyproject.toml ]; then pip install --no-cache-dir --prefix=/install .; fi\n";

pub const PYTHON_RUNTIME_STAGE: &'static str = "\nFROM python:3.12-slim\nWORKDIR /app\n";

pub const PYTHON_COPY_DEPS: &'static str = "COPY --from=build /install /usr/local\n";

pub const PYTHON_COPY_APP: &'static str = "COPY --from=build /app .\nEXPOSE 8000\n# REPLACE with your actual entrypoint \u{2014} this can't be inferred reliably.\n";

pub const PYTHON_CMD: &'static str = "CMD [\"python\", \"app.py\"]\n";

pub const GO_BUILD_FROM: &'static str = "FROM golang:1-alpine AS build\n";

pub const GO_BUILD_STEPS: &'static str = "WORKDIR /app\nCOPY go.mod ./\nCOPY go.sum* ./\nRUN go mod download\nCOPY . .\nRUN CGO_ENABLED=0 go build -o /app/bin ./...\n";

pub const GO_RUNTIME_STAGE: &'static str = "\nFROM alpine:latest\nRUN apk add --no-cache ca-certificates\n";

pub const GO_COPY_BINARY: &'static str = "COPY --from=build /app/bin /bin/app\nEXPOSE 8080\n";

pub const GO_CMD: &'static str = "CMD [\"/bin/app\"]\n";

/// The Rust Dockerfile: a `rust` build stage, then a slim Debian stage that
/// copies the release binary `binary` out of it.
pub open spec fn rust_text(binary: Seq<char>) -> Seq<char> {
    SYNTAX@ + RUST_BUILD_FROM@ + RUST_BUILD_STEPS@ + RUST_RUNTIME_FROM@ + RUST_RUNTIME_STEPS@
        + RUST_COPY_BINARY@ + binary + RUST_BINARY_DEST@ + RUST_CMD@
}

/// The Node Dockerfile for one package manager's commands.
pub open spec fn node_text(
    install_cmd: Seq<char>,
    build_cmd: Seq<char>,
    runner: Seq<char>,
    start_script: Seq<char>,
) -> Seq<char> {
    SYNTAX@ + NODE_BUILD_FROM@ + NODE_BUILD_STEPS@ + install_cmd + NODE_NEXT_RUN@ + build_cmd
        + NODE_RUNTIME_STAGE@ + NODE_COPY_APP@ + NODE_CMD_OPEN@ + runner + NODE_CMD_SEP@
        + start_script + NODE_CMD_CLOSE@
}

/// The Python Dockerfile: the dependencies are installed under `/install` in a
/// build stage, and a clean stage copies them and the sources out of it.
pub open spec fn python_text() -> Seq<char> {
    SYNTAX@ + PYTHON_BUILD_FROM@ + PYTHON_BUILD_STEPS@ + PYTHON_RUNTIME_STAGE@ + PYTHON_COPY_DEPS@
        + PYTHON_COPY_APP@ + PYTHON_CMD@
}

/// The Go Dockerfile: a static binary built with cgo off, then copied into an
/// Alpine stage.
pub open spec fn go_text() -> Seq<char> {
    SYNTAX@ + GO_BUILD_FROM@ + GO_BUILD_STEPS@ + GO_RUNTIME_STAGE@ + GO_COPY_BINARY@ + GO_CMD@
}

/// The binary name that the Rust Dockerfile copies: the package name when it
/// is known, else the placeholder.
pub open spec fn binary_name(package_name: Option<&str>) -> Seq<char> {
    match package_name {
        Some(n) => n@,
        None => BINARY_PLACEHOLDER@,
    }
}

/// The Dockerfile generated for `stack`.
pub open spec fn dockerfile_text(stack: Stack, package_name: Option<&str>) -> Seq<char> {
    match stack {
        Stack::Rust => rust_text(binary_name(package_name)),
        Stack::NodeNpm => node_text(
            "npm install"@,
            "npm run build --if-present"@,
            "npm"@,
            "start"@,
        ),
        Stack::NodeYarn => node_text(
            "yarn install --frozen-lockfile"@,
            "yarn run build --if-present"@,
            "yarn"@,
            "start"@,
        ),
        Stack::NodePnpm => node_text(
            "pnpm install --frozen-lockfile"@,
            "pnpm run build --if-present"@,
            "pnpm"@,
            "start"@,
        ),
        Stack::NodeBun => node_text(
            "bun install --frozen-lockfile"@,
            "bun run build --if-present"@,
            "bun"@,
            "start"@,
        ),
        Stack::Python => python_text(),
        Stack::Go => go_text(),
    }
}

/// Renders a working Dockerfile for `stack`. `package_name` (Rust only, from
/// `Cargo.toml`) fills in the binary name in the final `COPY --from=build`
/// line when known; else a clearly marked placeholder stands there.
pub fn generate_dockerfile(stack: Stack, package_name: Option<&str>) -> (r: String)
    ensures
        r@ == dockerfile_text(stack, package_name),
{
    match stack {
        Stack::Rust => rust_dockerfile(
            match package_name {
                Some(n) => n,
                None => BINARY_PLACEHOLDER,
            },
        ),
        Stack::NodeNpm => node_dockerfile("npm install", "npm run build --if-present", "npm", "start"),
        Stack::NodeYarn => node_dockerfile(
            "yarn install --frozen-lockfile",
            "yarn run build --if-present",
            "yarn",
            "start",
        ),
        Stack::NodePnpm => node_dockerfile(
            "pnpm install --frozen-lockfile",
            "pnpm run build --if-present",
            "pnpm",
            "start",
        ),
        Stack::NodeBun => node_dockerfile(
            "bun install --frozen-lockfile",
            "bun run build --if-present",
            "bun",
            "start",
        ),
        Stack::Python => python_dockerfile(),
        Stack::Go => go_dockerfile(),
    }
}

fn rust_dockerfile(binary_name: &str) -> (r: String)
    ensures
        r@ == rust_text(binary_name@),
{
    let mut text = String::from_str(SYNTAX);
    text.append(RUST_BUILD_FROM);
    text.append(RUST_BUILD_STEPS);
    text.append(RUST_RUNTIME_FROM);
    text.append(RUST_RUNTIME_STEPS);
    text.append(RUST_COPY_BINARY);
    text.append(binary_name);
    text.append(RUST_BINARY_DEST);
    text.append(RUST_CMD);
    text
}

fn node_dockerfile(install_cmd: &str, build_cmd: &str, runner: &str, start_script: &str) -> (r:
    String)
    ensures
        r@ == node_text(install_cmd@, build_cmd@, runner@, start_script@),
{
    let mut text = String::from_str(SYNTAX);
    text.append(NODE_BUILD_FROM);
    text.append(NODE_BUILD_STEPS);
    text.append(install_cmd);
    text.append(NODE_NEXT_RUN);
    text.append(build_cmd);
    text.append(NODE_RUNTIME_STAGE);
    text.append(NODE_COPY_APP);
    text.append(NODE_CMD_OPEN);
    text.append(runner);
    text.append(NODE_CMD_SEP);
    text.append(start_script);
    text.append(NODE_CMD_CLOSE);
    text
}

fn python_dockerfile() -> (r: String)
    ensures
        r@ == python_text(),
{
    let mut text = String::from_str(SYNTAX);
    text.append(PYTHON_BUILD_FROM);
    text.append(PYTHON_BUILD_STEPS);
    text.append(PYTHON_RUNTIME_STAGE);
    text.append(PYTHON_COPY_DEPS);
    text.append(PYTHON_COPY_APP);
    text.append(PYTHON_CMD);
    text
}

fn go_dockerfile() -> (r: String)
    ensures
        r@ == go_text(),
{
    let mut text = String::from_str(SYNTAX);
    text.append(GO_BUILD_FROM);
    text.append(GO_BUILD_STEPS);
    text.append(GO_RUNTIME_STAGE);
    text.append(GO_COPY_BINARY);
    text.append(GO_CMD);
    text
}

/// Every generated Dockerfile, whatever the stack and the package name, opens
/// with the `# syntax=docker/dockerfile:1` directive and has a `CMD [`
/// instruction.
pub proof fn lemma_syntax_directive_and_cmd(stack: Stack, package_name: Option<&str>)
    ensures
        starts_with(dockerfile_text(stack, package_name), "# syntax=docker/dockerfile:1"@),
        contains(dockerfile_text(stack, package_name), "CMD ["@),
{
    broadcast use group_occurrence;

    reveal_strlit("# syntax=docker/dockerfile:1\n");
    reveal_strlit("# syntax=docker/dockerfile:1");
    reveal_strlit("CMD [");
    reveal_strlit("CMD [\"./app\"]\n");
    reveal_strlit("CMD [\"");
    reveal_strlit("CMD [\"python\", \"app.py\"]\n");
    reveal_strlit("CMD [\"/bin/app\"]\n");
    assert(SYNTAX@.take(28) =~= "# syntax=docker/dockerfile:1"@);
    assert(RUST_CMD@.take(5) =~= "CMD ["@);
    assert(NODE_CMD_OPEN@.take(5) =~= "CMD ["@);
    assert(PYTHON_CMD@.take(5) =~= "CMD ["@);
    assert(GO_CMD@.take(5) =~= "CMD ["@);
    lemma_starts_with_contains(RUST_CMD@, "CMD ["@);
    lemma_starts_with_contains(NODE_CMD_OPEN@, "CMD ["@);
    lemma_starts_with_contains(PYTHON_CMD@, "CMD ["@);
    lemma_starts_with_contains(GO_CMD@, "CMD ["@);
}

/// Every generated Dockerfile is multi-stage: a stage named `build`, then a
/// later stage (a `FROM` line after it), which copies what it needs out of the
/// build stage with `COPY --from=build`.
pub proof fn lemma_multi_stage(stack: Stack, package_name: Option<&str>)
    ensures
        occurs_before(dockerfile_text(stack, package_name), " AS build\n"@, "\nFROM "@),
        contains(dockerfile_text(stack, package_name), "COPY --from=build "@),
{
    broadcast use group_occurrence;

    let build = " AS build\n"@;
    let from = "\nFROM "@;
    let copy = "COPY --from=build "@;
    reveal_strlit(" AS build\n");
    reveal_strlit("\nFROM ");
    reveal_strlit("COPY --from=build ");
    reveal_strlit("FROM rust:1-slim AS build\n");
    reveal_strlit("FROM node:20-slim AS build\n");
    reveal_strlit("FROM python:3.12-slim AS build\n");
    reveal_strlit("FROM golang:1-alpine AS build\n");
    reveal_strlit("\nFROM debian:bookworm-slim\n");
    reveal_strlit("\n\nFROM node:20-slim\nWORKDIR /app\n");
    reveal_strlit("\nFROM python:3.12-slim\nWORKDIR /app\n");
    reveal_strlit("\nFROM alpine:latest\nRUN apk add --no-cache ca-certificates\n");
    reveal_strlit("\nCOPY --from=build /app/target/release/");
    reveal_strlit("COPY --from=build /app .\nEXPOSE 3000\n");
    reveal_strlit("COPY --from=build /app/bin /bin/app\nEXPOSE 8080\n");

    assert(RUST_BUILD_FROM@.subrange(16, 26) =~= build);
    lemma_contains_at(RUST_BUILD_FROM@, build, 16);
    assert(NODE_BUILD_FROM@.subrange(17, 27) =~= build);
    lemma_contains_at(NODE_BUILD_FROM@, build, 17);
    assert(PYTHON_BUILD_FROM@.subrange(21, 31) =~= build);
    lemma_contains_at(PYTHON_BUILD_FROM@, build, 21);
    assert(GO_BUILD_FROM@.subrange(20, 30) =~= build);
    lemma_contains_at(GO_BUILD_FROM@, build, 20);

    assert(RUST_RUNTIME_FROM@.subrange(0, 6) =~= from);
    lemma_contains_at(RUST_RUNTIME_FROM@, from, 0);
    assert(NODE_RUNTIME_STAGE@.subrange(1, 7) =~= from);
    lemma_contains_at(NODE_RUNTIME_STAGE@, from, 1);
    assert(PYTHON_RUNTIME_STAGE@.subrange(0, 6) =~= from);
    lemma_contains_at(PYTHON_RUNTIME_STAGE@, from, 0);
    assert(GO_RUNTIME_STAGE@.subrange(0, 6) =~= from);
    lemma_contains_at(GO_RUNTIME_STAGE@, from, 0);

    assert(RUST_COPY_BINARY@.subrange(1, 19) =~= copy);
    lemma_contains_at(RUST_COPY_BINARY@, copy, 1);
    assert(NODE_COPY_APP@.subrange(0, 18) =~= copy);
    lemma_contains_at(NODE_COPY_APP@, copy, 0);
    reveal_strlit("COPY --from=build /install /usr/local\n");
    assert(PYTHON_COPY_DEPS@.subrange(0, 18) =~= copy);
    lemma_contains_at(PYTHON_COPY_DEPS@, copy, 0);
    assert(GO_COPY_BINARY@.subrange(0, 18) =~= copy);
    lemma_contains_at(GO_COPY_BINARY@, copy, 0);

    match stack {
        Stack::Rust => {
            lemma_occurs_before_join(
                SYNTAX@ + RUST_BUILD_FROM@ + RUST_BUILD_STEPS@,
                RUST_RUNTIME_FROM@,
                build,
                from,
            );
        },
        Stack::Python => {
            lemma_occurs_before_join(
                SYNTAX@ + PYTHON_BUILD_FROM@ + PYTHON_BUILD_STEPS@,
                PYTHON_RUNTIME_STAGE@,
                build,
                from,
            );
        },
        Stack::Go => {
            lemma_occurs_before_join(
                SYNTAX@ + GO_BUILD_FROM@ + GO_BUILD_STEPS@,
                GO_RUNTIME_STAGE@,
                build,
                from,
            );
        },
        _ => {
            let (install, build_cmd): (Seq<char>, Seq<char>) = match stack {
                Stack::NodeNpm => ("npm install"@, "npm run build --if-present"@),
                Stack::NodeYarn => ("yarn install --frozen-lockfile"@, "yarn run build --if-present"@),
                Stack::NodePnpm => ("pnpm install --frozen-lockfile"@, "pnpm run build --if-present"@),
                _ => ("bun install --frozen-lockfile"@, "bun run build --if-present"@),
            };
            lemma_occurs_before_join(
                SYNTAX@ + NODE_BUILD_FROM@ + NODE_BUILD_STEPS@ + install + NODE_NEXT_RUN@ + build_cmd,
                NODE_RUNTIME_STAGE@,
                build,
                from,
            );
        },
    }
}

/// The constant text of the Rust Dockerfile before the binary's name.
pub open spec fn rust_head() -> Seq<char> {
    SYNTAX@ + RUST_BUILD_FROM@ + RUST_BUILD_STEPS@ + RUST_RUNTIME_FROM@ + RUST_RUNTIME_STEPS@
        + RUST_COPY_BINARY@
}

/// The constant text of the Rust Dockerfile after the binary's name.
pub open spec fn rust_tail() -> Seq<char> {
    RUST_BINARY_DEST@ + RUST_CMD@
}

/// The Rust Dockerfile is one fixed text with the binary's name in one place:
/// a head that opens with the syntax directive and the `rust` build stage and
/// ends the line `COPY --from=build /app/target/release/`, the name, and a
/// fixed tail that copies it to `./app` and runs it.
pub proof fn lemma_rust_text_frames_the_name(name: Seq<char>)
    ensures
        rust_text(name) == rust_head() + name + rust_tail(),
        starts_with(rust_head(), "# syntax=docker/dockerfile:1\nFROM rust:1-slim AS build\n"@),
        ends_with(rust_head(), "\nCOPY --from=build /app/target/release/"@),
        rust_tail() == " ./app\nEXPOSE 8080\nCMD [\"./app\"]\n"@,
{
    broadcast use group_occurrence;

    reveal_strlit("# syntax=docker/dockerfile:1\n");
    reveal_strlit("FROM rust:1-slim AS build\n");
    reveal_strlit("# syntax=docker/dockerfile:1\nFROM rust:1-slim AS build\n");
    reveal_strlit("\nCOPY --from=build /app/target/release/");
    reveal_strlit(" ./app\nEXPOSE 8080\n");
    reveal_strlit("CMD [\"./app\"]\n");
    reveal_strlit(" ./app\nEXPOSE 8080\nCMD [\"./app\"]\n");
    assert(rust_text(name) =~= rust_head() + name + rust_tail());
    let opening = SYNTAX@ + RUST_BUILD_FROM@;
    assert(opening.take(opening.len() as int) =~= "# syntax=docker/dockerfile:1\nFROM rust:1-slim AS build\n"@);
    lemma_ends_with_append(
        SYNTAX@ + RUST_BUILD_FROM@ + RUST_BUILD_STEPS@ + RUST_RUNTIME_FROM@ + RUST_RUNTIME_STEPS@,
        RUST_COPY_BINARY@,
    );
    assert(rust_tail() =~= " ./app\nEXPOSE 8080\nCMD [\"./app\"]\n"@);
}

/// The Rust Dockerfile copies out exactly the binary that the package name
/// names: it holds the line `COPY --from=build /app/target/release/<name> ./app`.
pub proof fn lemma_rust_copies_named_binary(name: &str)
    ensures
        contains(
            dockerfile_text(Stack::Rust, Some(name)),
            "\nCOPY --from=build /app/target/release/"@ + name@ + " ./app\n"@,
        ),
{
    broadcast use group_occurrence;

    reveal_strlit(" ./app\n");
    reveal_strlit(" ./app\nEXPOSE 8080\n");
    let head = SYNTAX@ + RUST_BUILD_FROM@ + RUST_BUILD_STEPS@ + RUST_RUNTIME_FROM@
        + RUST_RUNTIME_STEPS@;
    let line = RUST_COPY_BINARY@ + name@ + " ./app\n"@;
    let upto_dest = head + RUST_COPY_BINARY@ + name@ + RUST_BINARY_DEST@;
    assert(RUST_BINARY_DEST@.take(7) =~= " ./app\n"@);
    assert(upto_dest.subrange(head.len() as int, (head.len() + line.len()) as int) =~= line);
    lemma_contains_at(upto_dest, line, head.len() as int);
}

proof fn lemma_node_text_order(
    install_cmd: Seq<char>,
    build_cmd: Seq<char>,
    runner: Seq<char>,
    start_script: Seq<char>,
)
    ensures
        occurs_before(
            node_text(install_cmd, build_cmd, runner, start_script),
            "COPY . .\n"@,
            "RUN "@ + install_cmd + "\n"@,
        ),
        occurs_before(
            node_text(install_cmd, build_cmd, runner, start_script),
            "RUN "@ + install_cmd + "\n"@,
            "RUN "@ + build_cmd + "\n"@,
        ),
        contains(
            node_text(install_cmd, build_cmd, runner, start_script),
            "CMD [\""@ + runner + "\", \""@ + start_script + "\"]\n"@,
        ),
{
    broadcast use group_occurrence;

    reveal_strlit("WORKDIR /app\nCOPY package.json ./\nCOPY . .\nRUN ");
    reveal_strlit("WORKDIR /app\nCOPY package.json ./\n");
    reveal_strlit("COPY . .\n");
    reveal_strlit("RUN ");
    reveal_strlit("\n");
    reveal_strlit("\nRUN ");
    reveal_strlit("\n\nFROM node:20-slim\nWORKDIR /app\n");
    reveal_strlit("\nFROM node:20-slim\nWORKDIR /app\n");
    reveal_strlit("CMD [\"");
    reveal_strlit("\", \"");
    reveal_strlit("\"]\n");
    let text = node_text(install_cmd, build_cmd, runner, start_script);
    let copy_all = "COPY . .\n"@;
    let install = "RUN "@ + install_cmd + "\n"@;
    let build = "RUN "@ + build_cmd + "\n"@;
    let cmd = "CMD [\""@ + runner + "\", \""@ + start_script + "\"]\n"@;
    let head = SYNTAX@ + NODE_BUILD_FROM@ + "WORKDIR /app\nCOPY package.json ./\n"@;
    let runtime = "\nFROM node:20-slim\nWORKDIR /app\n"@ + NODE_COPY_APP@;
    assert(text =~= head + copy_all + install + build + runtime + cmd);
    lemma_contains_itself(copy_all);
    lemma_contains_itself(install);
    lemma_contains_itself(build);
    lemma_contains_itself(cmd);
    lemma_occurs_before_join(head + copy_all, install, copy_all, install);
    lemma_occurs_before_join(head + copy_all + install, build, install, build);
}

/// Every Node Dockerfile copies the whole project into its build stage, then
/// runs its package manager's install, then `<pm> run build --if-present`, in
/// that order, and starts the app with `CMD ["<pm>", "start"]`.
pub proof fn lemma_node_build_order(stack: Stack, package_name: Option<&str>)
    requires
        stack == Stack::NodeNpm || stack == Stack::NodeYarn || stack == Stack::NodePnpm || stack
            == Stack::NodeBun,
    ensures
        ({
            let (pm, install) = match stack {
                Stack::NodeNpm => ("npm"@, "npm install"@),
                Stack::NodeYarn => ("yarn"@, "yarn install --frozen-lockfile"@),
                Stack::NodePnpm => ("pnpm"@, "pnpm install --frozen-lockfile"@),
                _ => ("bun"@, "bun install --frozen-lockfile"@),
            };
            let text = dockerfile_text(stack, package_name);
            &&& occurs_before(text, "COPY . .\n"@, "RUN "@ + install + "\n"@)
            &&& occurs_before(
                text,
                "RUN "@ + install + "\n"@,
                "RUN "@ + pm + " run build --if-present\n"@,
            )
            &&& contains(text, "CMD [\""@ + pm + "\", \"start\"]\n"@)
        }),
{
    reveal_strlit(" run build --if-present\n");
    reveal_strlit("\n");
    reveal_strlit("\", \"start\"]\n");
    reveal_strlit("\", \"");
    reveal_strlit("start");
    reveal_strlit("\"]\n");
    reveal_strlit("npm");
    reveal_strlit("yarn");
    reveal_strlit("pnpm");
    reveal_strlit("bun");
    reveal_strlit("npm run build --if-present");
    reveal_strlit("yarn run build --if-present");
    reveal_strlit("pnpm run build --if-present");
    reveal_strlit("bun run build --if-present");
    let (pm, install, build): (Seq<char>, Seq<char>, Seq<char>) = match stack {
        Stack::NodeNpm => ("npm"@, "npm install"@, "npm run build --if-present"@),
        Stack::NodeYarn => ("yarn"@, "yarn install --frozen-lockfile"@, "yarn run build --if-present"@),
        Stack::NodePnpm => ("pnpm"@, "pnpm install --frozen-lockfile"@, "pnpm run build --if-present"@),
        _ => ("bun"@, "bun install --frozen-lockfile"@, "bun run build --if-present"@),
    };
    lemma_node_text_order(install, build, pm, "start"@);
    assert("RUN "@ + build + "\n"@ =~= "RUN "@ + pm + " run build --if-present\n"@);
    assert("CMD [\""@ + pm + "\", \""@ + "start"@ + "\"]\n"@ =~= "CMD [\""@ + pm + "\", \"start\"]\n"@);
}

/// The Go Dockerfile, for every package name, is these lines in this order: a
/// `golang` build stage that fetches the modules named by `go.mod` and
/// `go.sum`, copies the project and builds a static binary with cgo off into
/// `/app/bin`; then an Alpine stage with the CA certificates that copies that
/// very binary to `/bin/app` and runs it.
pub proof fn lemma_go_build_steps(package_name: Option<&str>)
    ensures
        in_order(
            dockerfile_text(Stack::Go, package_name),
            seq![
                "FROM golang:1-alpine AS build\n"@,
                "WORKDIR /app\n"@,
                "COPY go.mod ./\n"@,
                "COPY go.sum* ./\n"@,
                "RUN go mod download\n"@,
                "COPY . .\n"@,
                "RUN CGO_ENABLED=0 go build -o /app/bin ./...\n"@,
                "\nFROM alpine:latest\n"@,
                "RUN apk add --no-cache ca-certificates\n"@,
                "COPY --from=build /app/bin /bin/app\n"@,
                "EXPOSE 8080\n"@,
                "CMD [\"/bin/app\"]\n"@,
            ],
        ),
{

    reveal_strlit("# syntax=docker/dockerfile:1\n");
    reveal_strlit("FROM golang:1-alpine AS build\n");
    reveal_strlit("WORKDIR /app\nCOPY go.mod ./\nCOPY go.sum* ./\nRUN go mod download\nCOPY . .\nRUN CGO_ENABLED=0 go build -o /app/bin ./...\n");
    reveal_strlit("\nFROM alpine:latest\nRUN apk add --no-cache ca-certificates\n");
    reveal_strlit("COPY --from=build /app/bin /bin/app\nEXPOSE 8080\n");
    reveal_strlit("CMD [\"/bin/app\"]\n");
    reveal_strlit("WORKDIR /app\n");
    reveal_strlit("COPY go.mod ./\n");
    reveal_strlit("COPY go.sum* ./\n");
    reveal_strlit("RUN go mod download\n");
    reveal_strlit("COPY . .\n");
    reveal_strlit("RUN CGO_ENABLED=0 go build -o /app/bin ./...\n");
    reveal_strlit("\nFROM alpine:latest\n");
    reveal_strlit("RUN apk add --no-cache ca-certificates\n");
    reveal_strlit("COPY --from=build /app/bin /bin/app\n");
    reveal_strlit("EXPOSE 8080\n");
    let empty = Seq::<char>::empty();
    let parts = seq![
        "FROM golang:1-alpine AS build\n"@,
        "WORKDIR /app\n"@,
        "COPY go.mod ./\n"@,
        "COPY go.sum* ./\n"@,
        "RUN go mod download\n"@,
        "COPY . .\n"@,
        "RUN CGO_ENABLED=0 go build -o /app/bin ./...\n"@,
        "\nFROM alpine:latest\n"@,
        "RUN apk add --no-cache ca-certificates\n"@,
        "COPY --from=build /app/bin /bin/app\n"@,
        "EXPOSE 8080\n"@,
        "CMD [\"/bin/app\"]\n"@,
    ];
    let gaps = seq![SYNTAX@] + Seq::new(11, |i: int| empty);
    lemma_woven_in_order(gaps, parts, empty);
    reveal_with_fuel(woven, 13);
    assert(woven(gaps, parts) + empty =~= SYNTAX@ + parts[0] + parts[1] + parts[2] + parts[3] + parts[4] + parts[5] + parts[6] + parts[7] + parts[8] + parts[9] + parts[10] + parts[11]);
    assert(SYNTAX@ + parts[0] + parts[1] + parts[2] + parts[3] + parts[4] + parts[5] + parts[6] + parts[7] + parts[8] + parts[9] + parts[10] + parts[11] =~= dockerfile_text(Stack::Go, package_name));
}

/// The Rust Dockerfile is these lines in this order: a `rust` build stage that
/// copies the manifest, the lockfile and the sources and builds the release
/// binary; then a slim Debian stage that installs the CA certificates, copies
/// the binary named by the package name (or the placeholder, when none is
/// known) to `./app` and runs it.
#[verifier::rlimit(50)]
pub proof fn lemma_rust_build_steps(package_name: Option<&str>)
    ensures
        ({
            let name = match package_name {
                Some(n) => n@,
                None => "REPLACE_WITH_YOUR_BINARY_NAME"@,
            };
            in_order(
                dockerfile_text(Stack::Rust, package_name),
                seq![
                    "FROM rust:1-slim AS build\n"@,
                    "WORKDIR /app\n"@,
                    "COPY Cargo.toml Cargo.lock ./\n"@,
                    "COPY src ./src\n"@,
                    "RUN cargo build --release\n"@,
                    "\nFROM debian:bookworm-slim\n"@,
                    "RUN apt-get update && apt-get install -y --no-install-recommends ca-certificates && rm -rf /var/lib/apt/lists/*\n"@,
                    "WORKDIR /app\n"@,
                    "COPY --from=build /app/target/release/"@ + name + " ./app\n"@,
                    "EXPOSE 8080\n"@,
                    "CMD [\"./app\"]\n"@,
                ],
            )
        }),
{
    let name = match package_name {
        Some(n) => n@,
        None => "REPLACE_WITH_YOUR_BINARY_NAME"@,
    };
    reveal_strlit("# syntax=docker/dockerfile:1\n");
    reveal_strlit("FROM rust:1-slim AS build\n");
    reveal_strlit("WORKDIR /app\nCOPY Cargo.toml Cargo.lock ./\nCOPY src ./src\nRUN cargo build --release\n");
    reveal_strlit("\nFROM debian:bookworm-slim\n");
    reveal_strlit("RUN apt-get update && apt-get install -y --no-install-recommends ca-certificates && rm -rf /var/lib/apt/lists/*\nWORKDIR /app");
    reveal_strlit("\nCOPY --from=build /app/target/release/");
    reveal_strlit(" ./app\nEXPOSE 8080\n");
    reveal_strlit("CMD [\"./app\"]\n");
    reveal_strlit("REPLACE_WITH_YOUR_BINARY_NAME");
    reveal_strlit("COPY --from=build /app/target/release/");
    reveal_strlit(" ./app\n");
    reveal_strlit("\n");
    reveal_strlit("RUN apt-get update && apt-get install -y --no-install-recommends ca-certificates && rm -rf /var/lib/apt/lists/*\n");
    reveal_strlit("WORKDIR /app\n");
    reveal_strlit("COPY Cargo.toml Cargo.lock ./\n");
    reveal_strlit("COPY src ./src\n");
    reveal_strlit("RUN cargo build --release\n");
    reveal_strlit("EXPOSE 8080\n");
    let empty = Seq::<char>::empty();
    let parts = seq![
        "FROM rust:1-slim AS build\n"@,
        "WORKDIR /app\n"@,
        "COPY Cargo.toml Cargo.lock ./\n"@,
        "COPY src ./src\n"@,
        "RUN cargo build --release\n"@,
        "\nFROM debian:bookworm-slim\n"@,
        "RUN apt-get update && apt-get install -y --no-install-recommends ca-certificates && rm -rf /var/lib/apt/lists/*\n"@,
        "WORKDIR /app\n"@,
        "COPY --from=build /app/target/release/"@ + name + " ./app\n"@,
        "EXPOSE 8080\n"@,
        "CMD [\"./app\"]\n"@,
    ];
    let gaps = seq![SYNTAX@] + Seq::new(10, |i: int| empty);
    lemma_woven_in_order(gaps, parts, empty);
    reveal_with_fuel(woven, 12);
    assert(woven(gaps, parts) + empty =~= SYNTAX@ + parts[0] + parts[1] + parts[2] + parts[3] + parts[4] + parts[5] + parts[6] + parts[7] + parts[8] + parts[9] + parts[10]);
    assert(SYNTAX@ + parts[0] + parts[1] + parts[2] + parts[3] + parts[4] + parts[5] + parts[6] + parts[7] + parts[8] + parts[9] + parts[10] =~= dockerfile_text(Stack::Rust, package_name));
}

/// The Python Dockerfile, for every package name, is these lines in this
/// order: a build stage that copies the project and installs its dependencies
/// under `/install`, from `requirements.txt` when there is one, else from
/// `pyproject.toml`; then a clean stage that copies the installed dependencies
/// and the project out of it and runs `app.py`.
#[verifier::rlimit(50)]
pub proof fn lemma_python_build_steps(package_name: Option<&str>)
    ensures
        in_order(
            dockerfile_text(Stack::Python, package_name),
            seq![
                "FROM python:3.12-slim AS build\n"@,
                "WORKDIR /app\n"@,
                "COPY . .\n"@,
                "RUN if [ -f requirements.txt ]; then pip install --no-cache-dir --prefix=/install -r requirements.txt; \\\n"@,
                "    elif [ -f pyproject.toml ]; then pip install --no-cache-dir --prefix=/install .; fi\n"@,
                "\nFROM python:3.12-slim\n"@,
                "WORKDIR /app\n"@,
                "COPY --from=build /install /usr/local\n"@,
                "COPY --from=build /app .\n"@,
                "EXPOSE 8000\n"@,
                "# REPLACE with your actual entrypoint \u{2014} this can't be inferred reliably.\n"@,
                "CMD [\"python\", \"app.py\"]\n"@,
            ],
        ),
{

    reveal_strlit("# syntax=docker/dockerfile:1\n");
    reveal_strlit("FROM python:3.12-slim AS build\n");
    reveal_strlit("WORKDIR /app\nCOPY . .\nRUN if [ -f requirements.txt ]; then pip install --no-cache-dir --prefix=/install -r requirements.txt; \\\n    elif [ -f pyproject.toml ]; then pip install --no-cache-dir --prefix=/install .; fi\n");
    reveal_strlit("\nFROM python:3.12-slim\nWORKDIR /app\n");
    reveal_strlit("COPY --from=build /install /usr/local\n");
    reveal_strlit("COPY --from=build /app .\nEXPOSE 8000\n# REPLACE with your actual entrypoint \u{2014} this can't be inferred reliably.\n");
    reveal_strlit("CMD [\"python\", \"app.py\"]\n");
    reveal_strlit("WORKDIR /app\n");
    reveal_strlit("COPY . .\n");
    reveal_strlit("RUN if [ -f requirements.txt ]; then pip install --no-cache-dir --prefix=/install -r requirements.txt; \\\n");
    reveal_strlit("    elif [ -f pyproject.toml ]; then pip install --no-cache-dir --prefix=/install .; fi\n");
    reveal_strlit("\nFROM python:3.12-slim\n");
    reveal_strlit("COPY --from=build /app .\n");
    reveal_strlit("EXPOSE 8000\n");
    reveal_strlit("# REPLACE with your actual entrypoint \u{2014} this can't be inferred reliably.\n");
    let empty = Seq::<char>::empty();
    let parts = seq![
        "FROM python:3.12-slim AS build\n"@,
        "WORKDIR /app\n"@,
        "COPY . .\n"@,
        "RUN if [ -f requirements.txt ]; then pip install --no-cache-dir --prefix=/install -r requirements.txt; \\\n"@,
        "    elif [ -f pyproject.toml ]; then pip install --no-cache-dir --prefix=/install .; fi\n"@,
        "\nFROM python:3.12-slim\n"@,
        "WORKDIR /app\n"@,
        "COPY --from=build /install /usr/local\n"@,
        "COPY --from=build /app .\n"@,
        "EXPOSE 8000\n"@,
        "# REPLACE with your actual entrypoint \u{2014} this can't be inferred reliably.\n"@,
        "CMD [\"python\", \"app.py\"]\n"@,
    ];
    let gaps = seq![SYNTAX@] + Seq::new(11, |i: int| empty);
    lemma_woven_in_order(gaps, parts, empty);
    reveal_with_fuel(woven, 13);
    let flat = SYNTAX@ + parts[0] + parts[1] + parts[2] + parts[3] + parts[4] + parts[5] + parts[6]
        + parts[7] + parts[8] + parts[9] + parts[10] + parts[11];
    assert(woven(gaps, parts) + empty =~= flat);
    assert(PYTHON_BUILD_STEPS@ =~= parts[1] + parts[2] + parts[3] + parts[4]);
    assert(PYTHON_RUNTIME_STAGE@ =~= parts[5] + parts[6]);
    assert(PYTHON_COPY_APP@ =~= parts[8] + parts[9] + parts[10]);
    let grouped = SYNTAX@ + parts[0] + (parts[1] + parts[2] + parts[3] + parts[4]) + (parts[5]
        + parts[6]) + parts[7] + (parts[8] + parts[9] + parts[10]) + parts[11];
    assert(grouped == dockerfile_text(Stack::Python, package_name));
    assert(flat =~= grouped);
}

#[verifier::rlimit(50)]
proof fn lemma_node_text_steps(
    install_cmd: Seq<char>,
    build_cmd: Seq<char>,
    runner: Seq<char>,
    start_script: Seq<char>,
)
    ensures
        in_order(
            node_text(install_cmd, build_cmd, runner, start_script),
            seq![
                "FROM node:20-slim AS build\n"@,
                "WORKDIR /app\n"@,
                "COPY package.json ./\n"@,
                "COPY . .\n"@,
                "RUN "@ + install_cmd + "\n"@,
                "RUN "@ + build_cmd + "\n"@,
                "\nFROM node:20-slim\n"@,
                "WORKDIR /app\n"@,
                "COPY --from=build /app .\n"@,
                "EXPOSE 3000\n"@,
                "CMD [\""@ + runner + "\", \""@ + start_script + "\"]\n"@,
            ],
        ),
{

    reveal_strlit("# syntax=docker/dockerfile:1\n");
    reveal_strlit("FROM node:20-slim AS build\n");
    reveal_strlit("WORKDIR /app\nCOPY package.json ./\nCOPY . .\nRUN ");
    reveal_strlit("\nRUN ");
    reveal_strlit("\n\nFROM node:20-slim\nWORKDIR /app\n");
    reveal_strlit("COPY --from=build /app .\nEXPOSE 3000\n");
    reveal_strlit("CMD [\"");
    reveal_strlit("\", \"");
    reveal_strlit("\"]\n");
    reveal_strlit("RUN ");
    reveal_strlit("\n");
    reveal_strlit("\nFROM node:20-slim\n");
    reveal_strlit("COPY --from=build /app .\n");
    reveal_strlit("WORKDIR /app\n");
    reveal_strlit("COPY package.json ./\n");
    reveal_strlit("COPY . .\n");
    reveal_strlit("EXPOSE 3000\n");
    let empty = Seq::<char>::empty();
    let parts = seq![
        "FROM node:20-slim AS build\n"@,
        "WORKDIR /app\n"@,
        "COPY package.json ./\n"@,
        "COPY . .\n"@,
        "RUN "@ + install_cmd + "\n"@,
        "RUN "@ + build_cmd + "\n"@,
        "\nFROM node:20-slim\n"@,
        "WORKDIR /app\n"@,
        "COPY --from=build /app .\n"@,
        "EXPOSE 3000\n"@,
        "CMD [\""@ + runner + "\", \""@ + start_script + "\"]\n"@,
    ];
    let gaps = seq![SYNTAX@] + Seq::new(10, |i: int| empty);
    lemma_woven_in_order(gaps, parts, empty);
    reveal_with_fuel(woven, 12);
    assert(woven(gaps, parts) + empty =~= SYNTAX@ + parts[0] + parts[1] + parts[2] + parts[3] + parts[4] + parts[5] + parts[6] + parts[7] + parts[8] + parts[9] + parts[10]);
    assert(SYNTAX@ + parts[0] + parts[1] + parts[2] + parts[3] + parts[4] + parts[5] + parts[6] + parts[7] + parts[8] + parts[9] + parts[10] =~= node_text(install_cmd, build_cmd, runner, start_script));
}

/// Every Node Dockerfile is these lines in this order: a `node` build stage
/// that copies `package.json` and then the whole project, runs the package
/// manager's install and then `<pm> run build --if-present`; then a `node`
/// stage that copies the built project out of it and runs `<pm> start`.
pub proof fn lemma_node_build_steps(stack: Stack, package_name: Option<&str>)
    requires
        stack == Stack::NodeNpm || stack == Stack::NodeYarn || stack == Stack::NodePnpm || stack
            == Stack::NodeBun,
    ensures
        ({
            let (pm, install) = match stack {
                Stack::NodeNpm => ("npm"@, "npm install"@),
                Stack::NodeYarn => ("yarn"@, "yarn install --frozen-lockfile"@),
                Stack::NodePnpm => ("pnpm"@, "pnpm install --frozen-lockfile"@),
                _ => ("bun"@, "bun install --frozen-lockfile"@),
            };
            in_order(
                dockerfile_text(stack, package_name),
                seq![
                    "FROM node:20-slim AS build\n"@,
                    "WORKDIR /app\n"@,
                    "COPY package.json ./\n"@,
                    "COPY . .\n"@,
                    "RUN "@ + install + "\n"@,
                    "RUN "@ + pm + " run build --if-present\n"@,
                    "\nFROM node:20-slim\n"@,
                    "WORKDIR /app\n"@,
                    "COPY --from=build /app .\n"@,
                    "EXPOSE 3000\n"@,
                    "CMD [\""@ + pm + "\", \"start\"]\n"@,
                ],
            )
        }),
{
    reveal_strlit(" run build --if-present\n");
    reveal_strlit("\n");
    reveal_strlit("\", \"start\"]\n");
    reveal_strlit("\", \"");
    reveal_strlit("start");
    reveal_strlit("\"]\n");
    reveal_strlit("npm");
    reveal_strlit("yarn");
    reveal_strlit("pnpm");
    reveal_strlit("bun");
    reveal_strlit("npm run build --if-present");
    reveal_strlit("yarn run build --if-present");
    reveal_strlit("pnpm run build --if-present");
    reveal_strlit("bun run build --if-present");
    let (pm, install, build): (Seq<char>, Seq<char>, Seq<char>) = match stack {
        Stack::NodeNpm => ("npm"@, "npm install"@, "npm run build --if-present"@),
        Stack::NodeYarn => ("yarn"@, "yarn install --frozen-lockfile"@, "yarn run build --if-present"@),
        Stack::NodePnpm => ("pnpm"@, "pnpm install --frozen-lockfile"@, "pnpm run build --if-present"@),
        _ => ("bun"@, "bun install --frozen-lockfile"@, "bun run build --if-present"@),
    };
    lemma_node_text_steps(install, build, pm, "start"@);
    let steps = seq![
        "FROM node:20-slim AS build\n"@,
        "WORKDIR /app\n"@,
        "COPY package.json ./\n"@,
        "COPY . .\n"@,
        "RUN "@ + install + "\n"@,
        "RUN "@ + build + "\n"@,
        "\nFROM node:20-slim\n"@,
        "WORKDIR /app\n"@,
        "COPY --from=build /app .\n"@,
        "EXPOSE 3000\n"@,
        "CMD [\""@ + pm + "\", \""@ + "start"@ + "\"]\n"@,
    ];
    assert("RUN "@ + build + "\n"@ =~= "RUN "@ + pm + " run build --if-present\n"@);
    assert("CMD [\""@ + pm + "\", \""@ + "start"@ + "\"]\n"@ =~= "CMD [\""@ + pm + "\", \"start\"]\n"@);
    assert(steps =~= seq![
        "FROM node:20-slim AS build\n"@,
        "WORKDIR /app\n"@,
        "COPY package.json ./\n"@,
        "COPY . .\n"@,
        "RUN "@ + install + "\n"@,
        "RUN "@ + pm + " run build --if-present\n"@,
        "\nFROM node:20-slim\n"@,
        "WORKDIR /app\n"@,
        "COPY --from=build /app .\n"@,
        "EXPOSE 3000\n"@,
        "CMD [\""@ + pm + "\", \"start\"]\n"@,
    ]);
}

/// The package name only ever changes the Rust Dockerfile: for every other
/// stack, any two package names give the same text.
pub proof fn lemma_package_name_only_for_rust(stack: Stack, a: Option<&str>, b: Option<&str>)
    requires
        stack != Stack::Rust,
    ensures
        dockerfile_text(stack, a) == dockerfile_text(stack, b),
{
}

} // verus!
