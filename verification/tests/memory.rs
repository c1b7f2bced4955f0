#![allow(unused_imports, unused_mut)]
use embive::interpreter::memory::{Memory, SliceMemory, RAM_OFFSET};
use embive::interpreter::Error;


#[test]
fn load_ram() {
    let mut ram = [0x1, 0x2, 0x3, 0x4];
    let mut memory = SliceMemory::new(vec![], ram.to_vec());
    let result = memory.load_bytes(0x80000000, 4);

    assert!(result.is_ok());
    assert_eq!(result.unwrap(), &[0x1, 0x2, 0x3, 0x4]);
}

#[test]
fn mut_ram() {
    let mut ram = [0x1, 0x2, 0x3, 0x4];
    let mut memory = SliceMemory::new(vec![], ram.to_vec());
    let result = memory.mut_bytes(0x80000000, 4);

    assert!(result.is_ok());

    let bytes = result.unwrap();
    bytes[0] = 0x5;

    assert_eq!(bytes, &mut [0x5, 0x2, 0x3, 0x4]);
}

#[test]
fn load_out_of_ram() {
    let mut ram = [0; 2];
    let mut memory = SliceMemory::new(vec![], ram.to_vec());
    let result = memory.load_bytes(0x80000000, 4);

    assert!(result.is_err());
    assert!(matches!(
        result.unwrap_err(),
        Error::InvalidMemoryAddress(_)
    ));
}

#[test]
fn mut_out_of_ram() {
    let mut ram = [0; 2];
    let mut memory = SliceMemory::new(vec![], ram.to_vec());
    let result = memory.mut_bytes(0x80000000, 4);

    assert!(result.is_err());
    assert!(matches!(
        result.unwrap_err(),
        Error::InvalidMemoryAddress(_)
    ));
}

#[test]
fn store_ram() {
    let mut ram = [0; 4];
    let mut memory = SliceMemory::new(vec![], ram.to_vec());
    let result = memory.store_bytes(0x80000000, &[0x1, 0x2, 0x3, 0x4]);

    assert!(result.is_ok());
    assert_eq!(memory.ram(), &[0x1, 0x2, 0x3, 0x4]);
}

#[test]
fn store_out_of_ram() {
    let mut ram = [0; 2];
    let mut memory = SliceMemory::new(vec![], ram.to_vec());
    let result = memory.store_bytes(0x80000000, &[0; 4]);

    assert!(result.is_err());
    assert!(matches!(
        result.unwrap_err(),
        Error::InvalidMemoryAddress(_)
    ));
}

#[test]
fn load_code() {
    let code = [0x1, 0x2, 0x3, 0x4];
    let mut memory = SliceMemory::new(code.to_vec(), vec![]);
    let result = memory.load_bytes(0x0, 4);

    assert!(result.is_ok());
    assert_eq!(result.unwrap(), &[0x1, 0x2, 0x3, 0x4]);
}

#[test]
fn mut_code() {
    let code = [0; 2];
    let mut memory = SliceMemory::new(code.to_vec(), vec![]);
    let result = memory.mut_bytes(0x0, 4);

    assert!(result.is_err());
    assert!(matches!(
        result.unwrap_err(),
        Error::InvalidMemoryAddress(_)
    ));
}

#[test]
fn store_code() {
    let code = [0; 4];
    let mut memory = SliceMemory::new(code.to_vec(), vec![]);
    let result = memory.store_bytes(0x0, &[0x1, 0x2, 0x3, 0x4]);

    assert!(result.is_err());
    assert!(matches!(
        result.unwrap_err(),
        Error::InvalidMemoryAddress(_)
    ));
}

#[test]
fn load_out_of_code() {
    let code = [0; 2];
    let mut memory = SliceMemory::new(code.to_vec(), vec![]);
    let result = memory.load_bytes(0x0, 4);

    assert!(result.is_err());
    assert!(matches!(
        result.unwrap_err(),
        Error::InvalidMemoryAddress(_)
    ));
}
