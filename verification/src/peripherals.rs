//! The capabilities for the peripherals: one value for each, and whoever
//! holds it has the peripheral to itself.

use crate::gpio::Pin;
use crate::util::{Steal, Unborrow};
use vstd::prelude::*;

verus! {

/// The first UART.
pub struct UARTE0 {
    _private: (),
}

/// The second UART.
pub struct UARTE1 {
    _private: (),
}

/// The analog-to-digital converter.
pub struct SAADC {
    _private: (),
}

impl Steal for UARTE0 {
    closed spec fn stolen() -> UARTE0 {
        UARTE0 { _private: () }
    }

    fn steal() -> (capability: UARTE0) {
        UARTE0 { _private: () }
    }
}

impl Steal for UARTE1 {
    closed spec fn stolen() -> UARTE1 {
        UARTE1 { _private: () }
    }

    fn steal() -> (capability: UARTE1) {
        UARTE1 { _private: () }
    }
}

impl Steal for SAADC {
    closed spec fn stolen() -> SAADC {
        SAADC { _private: () }
    }

    fn steal() -> (capability: SAADC) {
        SAADC { _private: () }
    }
}

impl Unborrow for UARTE0 {
    type Target = UARTE0;

    open spec fn unborrowed(self) -> UARTE0 {
        self
    }

    fn unborrow(self) -> (target: UARTE0) {
        self
    }
}

impl Unborrow for UARTE1 {
    type Target = UARTE1;

    open spec fn unborrowed(self) -> UARTE1 {
        self
    }

    fn unborrow(self) -> (target: UARTE1) {
        self
    }
}

impl Unborrow for SAADC {
    type Target = SAADC;

    open spec fn unborrowed(self) -> SAADC {
        self
    }

    fn unborrow(self) -> (target: SAADC) {
        self
    }
}

/// Pin 2 of port 0.
#[allow(non_camel_case_types)]
pub struct P0_02 {
    _private: (),
}

impl Steal for P0_02 {
    closed spec fn stolen() -> P0_02 {
        P0_02 { _private: () }
    }

    fn steal() -> (capability: P0_02) {
        P0_02 { _private: () }
    }
}

impl Unborrow for P0_02 {
    type Target = P0_02;

    open spec fn unborrowed(self) -> P0_02 {
        self
    }

    fn unborrow(self) -> (target: P0_02) {
        self
    }
}

impl Pin for P0_02 {
    open spec fn number(&self) -> u8 {
        2
    }

    fn pin_port(&self) -> (pin_port: u8) {
        2
    }
}

/// Pin 3 of port 0.
#[allow(non_camel_case_types)]
pub struct P0_03 {
    _private: (),
}

impl Steal for P0_03 {
    closed spec fn stolen() -> P0_03 {
        P0_03 { _private: () }
    }

    fn steal() -> (capability: P0_03) {
        P0_03 { _private: () }
    }
}

impl Unborrow for P0_03 {
    type Target = P0_03;

    open spec fn unborrowed(self) -> P0_03 {
        self
    }

    fn unborrow(self) -> (target: P0_03) {
        self
    }
}

impl Pin for P0_03 {
    open spec fn number(&self) -> u8 {
        3
    }

    fn pin_port(&self) -> (pin_port: u8) {
        3
    }
}

/// Pin 4 of port 0.
#[allow(non_camel_case_types)]
pub struct P0_04 {
    _private: (),
}

impl Steal for P0_04 {
    closed spec fn stolen() -> P0_04 {
        P0_04 { _private: () }
    }

    fn steal() -> (capability: P0_04) {
        P0_04 { _private: () }
    }
}

impl Unborrow for P0_04 {
    type Target = P0_04;

    open spec fn unborrowed(self) -> P0_04 {
        self
    }

    fn unborrow(self) -> (target: P0_04) {
        self
    }
}

impl Pin for P0_04 {
    open spec fn number(&self) -> u8 {
        4
    }

    fn pin_port(&self) -> (pin_port: u8) {
        4
    }
}

/// Pin 5 of port 0.
#[allow(non_camel_case_types)]
pub struct P0_05 {
    _private: (),
}

impl Steal for P0_05 {
    closed spec fn stolen() -> P0_05 {
        P0_05 { _private: () }
    }

    fn steal() -> (capability: P0_05) {
        P0_05 { _private: () }
    }
}

impl Unborrow for P0_05 {
    type Target = P0_05;

    open spec fn unborrowed(self) -> P0_05 {
        self
    }

    fn unborrow(self) -> (target: P0_05) {
        self
    }
}

impl Pin for P0_05 {
    open spec fn number(&self) -> u8 {
        5
    }

    fn pin_port(&self) -> (pin_port: u8) {
        5
    }
}

/// Pin 28 of port 0.
#[allow(non_camel_case_types)]
pub struct P0_28 {
    _private: (),
}

impl Steal for P0_28 {
    closed spec fn stolen() -> P0_28 {
        P0_28 { _private: () }
    }

    fn steal() -> (capability: P0_28) {
        P0_28 { _private: () }
    }
}

impl Unborrow for P0_28 {
    type Target = P0_28;

    open spec fn unborrowed(self) -> P0_28 {
        self
    }

    fn unborrow(self) -> (target: P0_28) {
        self
    }
}

impl Pin for P0_28 {
    open spec fn number(&self) -> u8 {
        28
    }

    fn pin_port(&self) -> (pin_port: u8) {
        28
    }
}

/// Pin 29 of port 0.
#[allow(non_camel_case_types)]
pub struct P0_29 {
    _private: (),
}

impl Steal for P0_29 {
    closed spec fn stolen() -> P0_29 {
        P0_29 { _private: () }
    }

    fn steal() -> (capability: P0_29) {
        P0_29 { _private: () }
    }
}

impl Unborrow for P0_29 {
    type Target = P0_29;

    open spec fn unborrowed(self) -> P0_29 {
        self
    }

    fn unborrow(self) -> (target: P0_29) {
        self
    }
}

impl Pin for P0_29 {
    open spec fn number(&self) -> u8 {
        29
    }

    fn pin_port(&self) -> (pin_port: u8) {
        29
    }
}

/// Pin 30 of port 0.
#[allow(non_camel_case_types)]
pub struct P0_30 {
    _private: (),
}

impl Steal for P0_30 {
    closed spec fn stolen() -> P0_30 {
        P0_30 { _private: () }
    }

    fn steal() -> (capability: P0_30) {
        P0_30 { _private: () }
    }
}

impl Unborrow for P0_30 {
    type Target = P0_30;

    open spec fn unborrowed(self) -> P0_30 {
        self
    }

    fn unborrow(self) -> (target: P0_30) {
        self
    }
}

impl Pin for P0_30 {
    open spec fn number(&self) -> u8 {
        30
    }

    fn pin_port(&self) -> (pin_port: u8) {
        30
    }
}

/// Pin 31 of port 0.
#[allow(non_camel_case_types)]
pub struct P0_31 {
    _private: (),
}

impl Steal for P0_31 {
    closed spec fn stolen() -> P0_31 {
        P0_31 { _private: () }
    }

    fn steal() -> (capability: P0_31) {
        P0_31 { _private: () }
    }
}

impl Unborrow for P0_31 {
    type Target = P0_31;

    open spec fn unborrowed(self) -> P0_31 {
        self
    }

    fn unborrow(self) -> (target: P0_31) {
        self
    }
}

impl Pin for P0_31 {
    open spec fn number(&self) -> u8 {
        31
    }

    fn pin_port(&self) -> (pin_port: u8) {
        31
    }
}

} // verus!
