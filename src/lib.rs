//! Computations and decisions behind a small STM32F3 discovery-board program:
//! the register words that route a pin to an external interrupt line, the
//! button flag shared between an interrupt and the main loop, PWM duty
//! cycles and busy-wait cycle counts.
pub mod button;
pub mod exti;
pub mod pwm;
pub mod tick;
pub mod timing;
