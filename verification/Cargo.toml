[package]
name = "arm_virt_boot"
version = "0.1.0"
edition = "2021"
publish = false

[dependencies]
page_table_entry = "=0.6.2"
memory_addr = "=0.4.1"
axplat = { version = "=0.4.2", features = ["irq", "smp"] }
