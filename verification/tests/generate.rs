use dockergen::detect::Stack;
use dockergen::generate::generate_dockerfile;

#[test]
fn rust_dockerfile_is_multistage_and_uses_the_real_binary_name() {
    let text = generate_dockerfile(Stack::Rust, Some("pgqueue"));
    assert!(text.contains("FROM rust:1-slim AS build"));
    assert!(text.contains("COPY --from=build /app/target/release/pgqueue ./app"));
    assert!(
        text.contains("FROM debian:bookworm-slim"),
        "must have a separate, smaller runtime stage"
    );
}

#[test]
fn rust_dockerfile_without_a_known_name_uses_a_visible_placeholder() {
    let text = generate_dockerfile(Stack::Rust, None);
    assert!(text.contains("REPLACE_WITH_YOUR_BINARY_NAME"));
}

#[test]
fn node_variants_use_the_correct_install_command_each() {
    assert!(generate_dockerfile(Stack::NodeBun, None).contains("bun install"));
    assert!(generate_dockerfile(Stack::NodePnpm, None).contains("pnpm install"));
    assert!(generate_dockerfile(Stack::NodeYarn, None).contains("yarn install"));
    assert!(generate_dockerfile(Stack::NodeNpm, None).contains("npm install"));
}

#[test]
fn python_dockerfile_handles_either_dependency_file() {
    let text = generate_dockerfile(Stack::Python, None);
    assert!(text.contains("requirements.txt"));
    assert!(text.contains("pyproject.toml"));
}

#[test]
fn go_dockerfile_is_multistage_with_cgo_disabled_for_a_static_binary() {
    let text = generate_dockerfile(Stack::Go, None);
    assert!(text.contains("FROM golang:1-alpine AS build"));
    assert!(text.contains("CGO_ENABLED=0"));
    assert!(text.contains("FROM alpine:latest"));
}

#[test]
fn every_generated_dockerfile_declares_a_build_syntax_and_a_cmd() {
    for stack in [Stack::Rust, Stack::NodeNpm, Stack::Python, Stack::Go] {
        let text = generate_dockerfile(stack, Some("x"));
        assert!(
            text.starts_with("# syntax=docker/dockerfile:1"),
            "{:?} missing syntax directive",
            stack
        );
        assert!(text.contains("CMD ["), "{:?} missing a CMD", stack);
    }
}

const ALL: [Stack; 7] = [
    Stack::Rust,
    Stack::NodeNpm,
    Stack::NodeYarn,
    Stack::NodePnpm,
    Stack::NodeBun,
    Stack::Python,
    Stack::Go,
];

#[test]
fn every_stack_and_name_gives_syntax_and_cmd() {
    for stack in ALL {
        for name in [None, Some("x"), Some("")] {
            let text = generate_dockerfile(stack, name);
            assert!(text.starts_with("# syntax=docker/dockerfile:1\n"));
            assert!(text.contains("CMD ["));
            assert!(text.ends_with("]\n"));
        }
    }
}

#[test]
fn every_stack_is_multi_stage() {
    for stack in ALL {
        let text = generate_dockerfile(stack, None);
        let build = text.find(" AS build\n").expect("a build stage");
        assert!(text[build..].contains("\nFROM "), "{:?} has no later stage", stack);
        assert!(text.contains("COPY --from=build "), "{:?} copies nothing out", stack);
        assert_eq!(text.matches("\nFROM ").count(), 2, "{:?}", stack);
    }
}

#[test]
fn every_node_variant_runs_the_build_script_and_start() {
    for (stack, pm) in [
        (Stack::NodeNpm, "npm"),
        (Stack::NodeYarn, "yarn"),
        (Stack::NodePnpm, "pnpm"),
        (Stack::NodeBun, "bun"),
    ] {
        let text = generate_dockerfile(stack, None);
        assert!(text.contains(&format!("RUN {} run build --if-present\n", pm)));
        assert!(text.contains(&format!("CMD [\"{}\", \"start\"]", pm)));
    }
}

#[test]
fn package_name_only_matters_for_rust() {
    for stack in ALL {
        if stack != Stack::Rust {
            assert_eq!(generate_dockerfile(stack, Some("abc")), generate_dockerfile(stack, None));
        }
    }
    assert_ne!(generate_dockerfile(Stack::Rust, Some("abc")), generate_dockerfile(Stack::Rust, None));
}

#[test]
fn rust_dockerfile_exact_text() {
    let expected = r#"# syntax=docker/dockerfile:1
FROM rust:1-slim AS build
WORKDIR /app
COPY Cargo.toml Cargo.lock ./
COPY src ./src
RUN cargo build --release

FROM debian:bookworm-slim
RUN apt-get update && apt-get install -y --no-install-recommends ca-certificates && rm -rf /var/lib/apt/lists/*
WORKDIR /app
COPY --from=build /app/target/release/my-bin ./app
EXPOSE 8080
CMD ["./app"]
"#;
    assert_eq!(generate_dockerfile(Stack::Rust, Some("my-bin")), expected);
}

#[test]
fn node_dockerfile_exact_text() {
    let expected = r#"# syntax=docker/dockerfile:1
FROM node:20-slim AS build
WORKDIR /app
COPY package.json ./
COPY . .
RUN yarn install --frozen-lockfile
RUN yarn run build --if-present

FROM node:20-slim
WORKDIR /app
COPY --from=build /app .
EXPOSE 3000
CMD ["yarn", "start"]
"#;
    assert_eq!(generate_dockerfile(Stack::NodeYarn, None), expected);
    assert!(generate_dockerfile(Stack::NodeNpm, None).contains("RUN npm install\nRUN npm run build --if-present\n"));
    assert!(generate_dockerfile(Stack::NodePnpm, None).contains("RUN pnpm install --frozen-lockfile\nRUN pnpm run build --if-present\n"));
    assert!(generate_dockerfile(Stack::NodeBun, None).contains("CMD [\"bun\", \"start\"]\n"));
}

#[test]
fn python_dockerfile_exact_text() {
    let expected = r#"# syntax=docker/dockerfile:1
FROM python:3.12-slim AS build
WORKDIR /app
COPY . .
RUN if [ -f requirements.txt ]; then pip install --no-cache-dir --prefix=/install -r requirements.txt; \
    elif [ -f pyproject.toml ]; then pip install --no-cache-dir --prefix=/install .; fi

FROM python:3.12-slim
WORKDIR /app
COPY --from=build /install /usr/local
COPY --from=build /app .
EXPOSE 8000
# REPLACE with your actual entrypoint — this can't be inferred reliably.
CMD ["python", "app.py"]
"#;
    assert_eq!(generate_dockerfile(Stack::Python, None), expected);
}

#[test]
fn go_dockerfile_exact_text() {
    let expected = r#"# syntax=docker/dockerfile:1
FROM golang:1-alpine AS build
WORKDIR /app
COPY go.mod ./
COPY go.sum* ./
RUN go mod download
COPY . .
RUN CGO_ENABLED=0 go build -o /app/bin ./...

FROM alpine:latest
RUN apk add --no-cache ca-certificates
COPY --from=build /app/bin /bin/app
EXPOSE 8080
CMD ["/bin/app"]
"#;
    assert_eq!(generate_dockerfile(Stack::Go, Some("ignored")), expected);
}
