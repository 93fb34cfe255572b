use nest::bus::Bus;
use nest::cpu::Cpu6502;
use nest::ppu::Ppu2C02;

/// A bus whose processor sits at 0x1000, decoding a non-Implied instruction.
fn setup() -> Bus {
    let mut bus = Bus::new(Cpu6502::new(), Ppu2C02::new());
    bus.cpu.opcode = 0x01;
    bus.cpu.pc = 0x1000;
    bus
}

#[test]
#[allow(non_snake_case)]
fn IMP_test() {
    let mut bus = setup();

    bus.cpu.a = 10;
    bus.cpu.IMP();

    // The fetched register should now contain the value of the accumulator
    assert_eq!(bus.cpu.fetched, 10, "Fetched value incorrect");
}

#[test]
#[allow(non_snake_case)]
fn IMM_test() {
    let mut bus = setup();
    bus.cpu_write(0x1000, 10);

    bus.cpu.IMM();
    bus.cpu.fetch(&bus.memory);

    // The cpu should have read the data stored at 0x1000
    assert_eq!(bus.cpu.fetched, 10, "Fetched value incorrect");
}

#[test]
#[allow(non_snake_case)]
fn ZP0_test() {
    let mut bus = setup();
    // Write the address of the data to the program
    bus.cpu_write(0x1000, 0x20);

    // Write the actual data
    bus.cpu_write(0x0020, 10);

    bus.cpu.ZP0(&bus.memory);
    bus.cpu.fetch(&bus.memory);

    assert_eq!(bus.cpu.fetched, 10, "Fetched value incorrect");
}

#[test]
#[allow(non_snake_case)]
fn ZPX_test() {
    let mut bus = setup();
    // Write the address of the data to the program
    bus.cpu_write(0x1000, 0x20);

    bus.cpu.x = 5;

    // Write the actual data
    bus.cpu_write(0x0025, 10);

    bus.cpu.ZPX(&bus.memory);
    bus.cpu.fetch(&bus.memory);

    assert_eq!(bus.cpu.fetched, 10, "Fetched value incorrect");
}

#[test]
#[allow(non_snake_case)]
fn ZPY_test() {
    let mut bus = setup();
    // Write the address of the data to the program
    bus.cpu_write(0x1000, 0x20);

    bus.cpu.y = 5;

    // Write the actual data
    bus.cpu_write(0x0025, 10);

    bus.cpu.ZPY(&bus.memory);
    bus.cpu.fetch(&bus.memory);

    assert_eq!(bus.cpu.fetched, 10, "Fetched value incorrect");
}

#[test]
#[allow(non_snake_case)]
fn ABS_test() {
    let mut bus = setup();
    // Write the lo and hi byte of the absolute address of the data to the program
    bus.cpu_write(0x1000, 0x20);
    bus.cpu_write(0x1001, 0x10);

    // Write data to the target address
    bus.cpu_write(0x1020, 10);

    bus.cpu.ABS(&bus.memory);
    bus.cpu.fetch(&bus.memory);

    assert_eq!(bus.cpu.fetched, 10, "Fetched value incorrect");
}

#[test]
#[allow(non_snake_case)]
fn ABX_test() {
    let mut bus = setup();
    // Write the lo and hi byte of the absolute address of the data to the program
    bus.cpu_write(0x1000, 0x20);
    bus.cpu_write(0x1001, 0x10);
    bus.cpu.x = 0x10;

    // Write data to the target address
    bus.cpu_write(0x1030, 10);

    bus.cpu.ABX(&bus.memory);
    bus.cpu.fetch(&bus.memory);

    assert_eq!(bus.cpu.fetched, 10, "Fetched value incorrect");
}

#[test]
#[allow(non_snake_case)]
fn ABY_test() {
    let mut bus = setup();
    // Write the lo and hi byte of the absolute address of the data to the program
    bus.cpu_write(0x1000, 0x20);
    bus.cpu_write(0x1001, 0x10);
    bus.cpu.y = 0x10;

    // Write data to the target address
    bus.cpu_write(0x1030, 10);

    bus.cpu.ABY(&bus.memory);
    bus.cpu.fetch(&bus.memory);

    assert_eq!(bus.cpu.fetched, 10, "Fetched value incorrect");
}

#[test]
#[allow(non_snake_case)]
fn IND_test() {
    let mut bus = setup();
    // Write the lo and hi byte of the pointer to the location of the target address to the program
    bus.cpu_write(0x1000, 0x20);
    bus.cpu_write(0x1001, 0x10);

    // Write target address to the pointer location
    bus.cpu_write(0x1020, 0x23);
    bus.cpu_write(0x1021, 0x01);

    // Write data to the location of the target address
    bus.cpu_write(0x0123, 10);

    bus.cpu.IND(&bus.memory);
    bus.cpu.fetch(&bus.memory);

    assert_eq!(bus.cpu.fetched, 10, "Fetched value incorrect");
}

#[test]
#[allow(non_snake_case)]
fn IZX_test() {
    let mut bus = setup();
    // Write an address to the zero page
    bus.cpu_write(0x0020, 0x23);
    bus.cpu_write(0x0021, 0x01);

    // Write an offset to the program counter location
    bus.cpu_write(0x1000, 0x10);
    bus.cpu.x = 0x10;

    // Write data to the target address

    bus.cpu_write(0x0123, 20);

    bus.cpu.IZX(&bus.memory);
    bus.cpu.fetch(&bus.memory);

    assert_eq!(bus.cpu.fetched, 20, "Fetched data incorrect");
}

#[test]
#[allow(non_snake_case)]
fn IZY_test() {
    let mut bus = setup();
    // Write an address to the zero page
    bus.cpu_write(0x0010, 0x20);
    bus.cpu_write(0x0011, 0x01);

    // Write an offset to the program counter location
    bus.cpu_write(0x1000, 0x10);
    bus.cpu.y = 0x03;

    // Write data to the target address

    bus.cpu_write(0x0123, 20);

    bus.cpu.IZY(&bus.memory);
    bus.cpu.fetch(&bus.memory);

    assert_eq!(bus.cpu.fetched, 20, "Fetched data incorrect");
}

#[test]
#[allow(non_snake_case)]
fn REL_test() {
    let mut bus = setup();

    // Write a relative address to the program counter location
    bus.cpu_write(0x1000, 0x10);

    bus.cpu.REL(&bus.memory);

    assert_eq!(bus.cpu.addr_rel, 0x0010, "Address not set correctly");

    // Write a relative address to the program counter location which should count as negative
    bus.cpu_write(0x1001, 0x90);

    bus.cpu.REL(&bus.memory);

    assert_eq!(bus.cpu.addr_rel, 0xFF90, "Negative relative address not handled correctly");
}
