use xtask::cli::{Arch, Platform};
use xtask::layout::{config_dir_name, join, out_base_dir, to_arch_name, to_platform_name};

const ARCHES: [Arch; 3] = [Arch::X86_64, Arch::Aarch64, Arch::Riscv64];

#[test]
fn base_path_of_x86_64_qemu_debug() {
    let root = String::new();
    assert_eq!(out_base_dir(&root, &Arch::X86_64, &Platform::Qemu, false), "out/x86_64-qemu-debug");
}

#[test]
fn base_path_under_a_root() {
    let root = String::from("/src/spencer");
    assert_eq!(
        out_base_dir(&root, &Arch::Aarch64, &Platform::Qemu, true),
        "/src/spencer/out/aarch64-qemu-release"
    );
}

#[test]
fn names_of_arches_and_platform() {
    assert_eq!(to_arch_name(&Arch::X86_64), "x86_64");
    assert_eq!(to_arch_name(&Arch::Aarch64), "aarch64");
    assert_eq!(to_arch_name(&Arch::Riscv64), "riscv64");
    assert_eq!(to_platform_name(&Platform::Qemu), "qemu");
    assert_eq!(config_dir_name(&Arch::Riscv64, &Platform::Qemu, true), "riscv64-qemu-release");
}

#[test]
fn join_of_empty_base_is_the_segment() {
    assert_eq!(join(&String::new(), "out"), "out");
    assert_eq!(join(&String::from("a/b"), "c"), "a/b/c");
}

#[test]
fn join_follows_the_unix_push_rule() {
    assert_eq!(join(&String::from("/"), "out"), "/out");
    assert_eq!(join(&String::from("a/"), "b"), "a/b");
    assert_eq!(join(&String::from("a"), "/abs"), "/abs");
    assert_eq!(join(&String::from("a"), ""), "a/");
}

#[test]
fn base_path_under_the_filesystem_root() {
    let root = String::from("/");
    assert_eq!(out_base_dir(&root, &Arch::X86_64, &Platform::Qemu, false), "/out/x86_64-qemu-debug");
}

#[test]
fn layout_is_deterministic_and_injective() {
    let root = String::from("/r");
    let mut seen: Vec<String> = Vec::new();
    for arch in ARCHES {
        for release in [false, true] {
            let a = out_base_dir(&root, &arch, &Platform::Qemu, release);
            let b = out_base_dir(&root, &arch, &Platform::Qemu, release);
            assert_eq!(a, b);
            assert!(!seen.contains(&a));
            seen.push(a);
        }
    }
    assert_eq!(seen.len(), 6);
}
