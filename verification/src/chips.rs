pub mod qemu_rv32_virt_chip;
