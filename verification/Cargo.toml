[package]
name = "memloader"
version = "0.1.0"
edition = "2021"
publish = false

[dependencies]
widestring = "*"
winapi = { version = "*", features = ["guiddef", "ntdef", "minwindef", "libloaderapi", "oaidl", "oleauto", "wtypes", "winnt"] }
mach_o_sys = "*"
oaidl = "*"
mscorlib-sys = "*"
mscoree_sys_2 = "*"
