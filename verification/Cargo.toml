[package]
name = "route_manager"
version = "0.1.0"
edition = "2021"
publish = false

[dependencies]
flume = "*"
libc = "0.2"
netlink-packet-core = "*"
netlink-packet-route = "*"
netlink-sys = "*"
tokio = { version = "1", features = ["net", "rt", "time", "macros"] }
windows-sys = { version = "*", features = ["Win32_Foundation", "Win32_NetworkManagement_IpHelper", "Win32_NetworkManagement_Ndis", "Win32_Networking_WinSock"] }
