//! Indices of the functions a programmable I/O pin can take.
use vstd::prelude::*;

verus! {

/// JTAG Test Clock
pub const JTAG_TCLK: u8 = 0;

/// JTAG Test Data In
pub const JTAG_TDI: u8 = 1;

/// JTAG Test Mode Select
pub const JTAG_TMS: u8 = 2;

/// JTAG Test Data Out
pub const JTAG_TDO: u8 = 3;

/// SPI0 Data 0
pub const SPI0_D0: u8 = 4;

/// SPI0 Data 1
pub const SPI0_D1: u8 = 5;

/// SPI0 Data 2
pub const SPI0_D2: u8 = 6;

/// SPI0 Data 3
pub const SPI0_D3: u8 = 7;

/// SPI0 Data 4
pub const SPI0_D4: u8 = 8;

/// SPI0 Data 5
pub const SPI0_D5: u8 = 9;

/// SPI0 Data 6
pub const SPI0_D6: u8 = 10;

/// SPI0 Data 7
pub const SPI0_D7: u8 = 11;

/// SPI0 Chip Select 0
pub const SPI0_SS0: u8 = 12;

/// SPI0 Chip Select 1
pub const SPI0_SS1: u8 = 13;

/// SPI0 Chip Select 2
pub const SPI0_SS2: u8 = 14;

/// SPI0 Chip Select 3
pub const SPI0_SS3: u8 = 15;

/// SPI0 Arbitration
pub const SPI0_ARB: u8 = 16;

/// SPI0 Serial Clock
pub const SPI0_SCLK: u8 = 17;

/// UART High speed Receiver
pub const UARTHS_RX: u8 = 18;

/// UART High speed Transmitter
pub const UARTHS_TX: u8 = 19;

/// Reserved function
pub const RESV6: u8 = 20;

/// Reserved function
pub const RESV7: u8 = 21;

/// Clock SPI1
pub const CLK_SPI1: u8 = 22;

/// Clock I2C1
pub const CLK_I2C1: u8 = 23;

/// GPIO High speed 0
pub const GPIOHS0: u8 = 24;

/// GPIO High speed 1
pub const GPIOHS1: u8 = 25;

/// GPIO High speed 2
pub const GPIOHS2: u8 = 26;

/// GPIO High speed 3
pub const GPIOHS3: u8 = 27;

/// GPIO High speed 4
pub const GPIOHS4: u8 = 28;

/// GPIO High speed 5
pub const GPIOHS5: u8 = 29;

/// GPIO High speed 6
pub const GPIOHS6: u8 = 30;

/// GPIO High speed 7
pub const GPIOHS7: u8 = 31;

/// GPIO High speed 8
pub const GPIOHS8: u8 = 32;

/// GPIO High speed 9
pub const GPIOHS9: u8 = 33;

/// GPIO High speed 10
pub const GPIOHS10: u8 = 34;

/// GPIO High speed 11
pub const GPIOHS11: u8 = 35;

/// GPIO High speed 12
pub const GPIOHS12: u8 = 36;

/// GPIO High speed 13
pub const GPIOHS13: u8 = 37;

/// GPIO High speed 14
pub const GPIOHS14: u8 = 38;

/// GPIO High speed 15
pub const GPIOHS15: u8 = 39;

/// GPIO High speed 16
pub const GPIOHS16: u8 = 40;

/// GPIO High speed 17
pub const GPIOHS17: u8 = 41;

/// GPIO High speed 18
pub const GPIOHS18: u8 = 42;

/// GPIO High speed 19
pub const GPIOHS19: u8 = 43;

/// GPIO High speed 20
pub const GPIOHS20: u8 = 44;

/// GPIO High speed 21
pub const GPIOHS21: u8 = 45;

/// GPIO High speed 22
pub const GPIOHS22: u8 = 46;

/// GPIO High speed 23
pub const GPIOHS23: u8 = 47;

/// GPIO High speed 24
pub const GPIOHS24: u8 = 48;

/// GPIO High speed 25
pub const GPIOHS25: u8 = 49;

/// GPIO High speed 26
pub const GPIOHS26: u8 = 50;

/// GPIO High speed 27
pub const GPIOHS27: u8 = 51;

/// GPIO High speed 28
pub const GPIOHS28: u8 = 52;

/// GPIO High speed 29
pub const GPIOHS29: u8 = 53;

/// GPIO High speed 30
pub const GPIOHS30: u8 = 54;

/// GPIO High speed 31
pub const GPIOHS31: u8 = 55;

/// GPIO pin 0
pub const GPIO0: u8 = 56;

/// GPIO pin 1
pub const GPIO1: u8 = 57;

/// GPIO pin 2
pub const GPIO2: u8 = 58;

/// GPIO pin 3
pub const GPIO3: u8 = 59;

/// GPIO pin 4
pub const GPIO4: u8 = 60;

/// GPIO pin 5
pub const GPIO5: u8 = 61;

/// GPIO pin 6
pub const GPIO6: u8 = 62;

/// GPIO pin 7
pub const GPIO7: u8 = 63;

/// UART1 Receiver
pub const UART1_RX: u8 = 64;

/// UART1 Transmitter
pub const UART1_TX: u8 = 65;

/// UART2 Receiver
pub const UART2_RX: u8 = 66;

/// UART2 Transmitter
pub const UART2_TX: u8 = 67;

/// UART3 Receiver
pub const UART3_RX: u8 = 68;

/// UART3 Transmitter
pub const UART3_TX: u8 = 69;

/// SPI1 Data 0
pub const SPI1_D0: u8 = 70;

/// SPI1 Data 1
pub const SPI1_D1: u8 = 71;

/// SPI1 Data 2
pub const SPI1_D2: u8 = 72;

/// SPI1 Data 3
pub const SPI1_D3: u8 = 73;

/// SPI1 Data 4
pub const SPI1_D4: u8 = 74;

/// SPI1 Data 5
pub const SPI1_D5: u8 = 75;

/// SPI1 Data 6
pub const SPI1_D6: u8 = 76;

/// SPI1 Data 7
pub const SPI1_D7: u8 = 77;

/// SPI1 Chip Select 0
pub const SPI1_SS0: u8 = 78;

/// SPI1 Chip Select 1
pub const SPI1_SS1: u8 = 79;

/// SPI1 Chip Select 2
pub const SPI1_SS2: u8 = 80;

/// SPI1 Chip Select 3
pub const SPI1_SS3: u8 = 81;

/// SPI1 Arbitration
pub const SPI1_ARB: u8 = 82;

/// SPI1 Serial Clock
pub const SPI1_SCLK: u8 = 83;

/// SPI Slave Data 0
pub const SPI_SLAVE_D0: u8 = 84;

/// SPI Slave Select
pub const SPI_SLAVE_SS: u8 = 85;

/// SPI Slave Serial Clock
pub const SPI_SLAVE_SCLK: u8 = 86;

/// I2S0 Master Clock
pub const I2S0_MCLK: u8 = 87;

/// I2S0 Serial Clock(BCLK)
pub const I2S0_SCLK: u8 = 88;

/// I2S0 Word Select(LRCLK)
pub const I2S0_WS: u8 = 89;

/// I2S0 Serial Data Input 0
pub const I2S0_IN_D0: u8 = 90;

/// I2S0 Serial Data Input 1
pub const I2S0_IN_D1: u8 = 91;

/// I2S0 Serial Data Input 2
pub const I2S0_IN_D2: u8 = 92;

/// I2S0 Serial Data Input 3
pub const I2S0_IN_D3: u8 = 93;

/// I2S0 Serial Data Output 0
pub const I2S0_OUT_D0: u8 = 94;

/// I2S0 Serial Data Output 1
pub const I2S0_OUT_D1: u8 = 95;

/// I2S0 Serial Data Output 2
pub const I2S0_OUT_D2: u8 = 96;

/// I2S0 Serial Data Output 3
pub const I2S0_OUT_D3: u8 = 97;

/// I2S1 Master Clock
pub const I2S1_MCLK: u8 = 98;

/// I2S1 Serial Clock(BCLK)
pub const I2S1_SCLK: u8 = 99;

/// I2S1 Word Select(LRCLK)
pub const I2S1_WS: u8 = 100;

/// I2S1 Serial Data Input 0
pub const I2S1_IN_D0: u8 = 101;

/// I2S1 Serial Data Input 1
pub const I2S1_IN_D1: u8 = 102;

/// I2S1 Serial Data Input 2
pub const I2S1_IN_D2: u8 = 103;

/// I2S1 Serial Data Input 3
pub const I2S1_IN_D3: u8 = 104;

/// I2S1 Serial Data Output 0
pub const I2S1_OUT_D0: u8 = 105;

/// I2S1 Serial Data Output 1
pub const I2S1_OUT_D1: u8 = 106;

/// I2S1 Serial Data Output 2
pub const I2S1_OUT_D2: u8 = 107;

/// I2S1 Serial Data Output 3
pub const I2S1_OUT_D3: u8 = 108;

/// I2S2 Master Clock
pub const I2S2_MCLK: u8 = 109;

/// I2S2 Serial Clock(BCLK)
pub const I2S2_SCLK: u8 = 110;

/// I2S2 Word Select(LRCLK)
pub const I2S2_WS: u8 = 111;

/// I2S2 Serial Data Input 0
pub const I2S2_IN_D0: u8 = 112;

/// I2S2 Serial Data Input 1
pub const I2S2_IN_D1: u8 = 113;

/// I2S2 Serial Data Input 2
pub const I2S2_IN_D2: u8 = 114;

/// I2S2 Serial Data Input 3
pub const I2S2_IN_D3: u8 = 115;

/// I2S2 Serial Data Output 0
pub const I2S2_OUT_D0: u8 = 116;

/// I2S2 Serial Data Output 1
pub const I2S2_OUT_D1: u8 = 117;

/// I2S2 Serial Data Output 2
pub const I2S2_OUT_D2: u8 = 118;

/// I2S2 Serial Data Output 3
pub const I2S2_OUT_D3: u8 = 119;

/// Reserved function
pub const RESV0: u8 = 120;

/// Reserved function
pub const RESV1: u8 = 121;

/// Reserved function
pub const RESV2: u8 = 122;

/// Reserved function
pub const RESV3: u8 = 123;

/// Reserved function
pub const RESV4: u8 = 124;

/// Reserved function
pub const RESV5: u8 = 125;

/// I2C0 Serial Clock
pub const I2C0_SCLK: u8 = 126;

/// I2C0 Serial Data
pub const I2C0_SDA: u8 = 127;

/// I2C1 Serial Clock
pub const I2C1_SCLK: u8 = 128;

/// I2C1 Serial Data
pub const I2C1_SDA: u8 = 129;

/// I2C2 Serial Clock
pub const I2C2_SCLK: u8 = 130;

/// I2C2 Serial Data
pub const I2C2_SDA: u8 = 131;

/// DVP System Clock
pub const CMOS_XCLK: u8 = 132;

/// DVP System Reset
pub const CMOS_RST: u8 = 133;

/// DVP Power Down Mode
pub const CMOS_PWDN: u8 = 134;

/// DVP Vertical Sync
pub const CMOS_VSYNC: u8 = 135;

/// DVP Horizontal Reference output
pub const CMOS_HREF: u8 = 136;

/// Pixel Clock
pub const CMOS_PCLK: u8 = 137;

/// Data Bit 0
pub const CMOS_D0: u8 = 138;

/// Data Bit 1
pub const CMOS_D1: u8 = 139;

/// Data Bit 2
pub const CMOS_D2: u8 = 140;

/// Data Bit 3
pub const CMOS_D3: u8 = 141;

/// Data Bit 4
pub const CMOS_D4: u8 = 142;

/// Data Bit 5
pub const CMOS_D5: u8 = 143;

/// Data Bit 6
pub const CMOS_D6: u8 = 144;

/// Data Bit 7
pub const CMOS_D7: u8 = 145;

/// SCCB Serial Clock
pub const SCCB_SCLK: u8 = 146;

/// SCCB Serial Data
pub const SCCB_SDA: u8 = 147;

/// UART1 Clear To Send
pub const UART1_CTS: u8 = 148;

/// UART1 Data Set Ready
pub const UART1_DSR: u8 = 149;

/// UART1 Data Carrier Detect
pub const UART1_DCD: u8 = 150;

/// UART1 Ring Indicator
pub const UART1_RI: u8 = 151;

/// UART1 Serial Infrared Input
pub const UART1_SIR_IN: u8 = 152;

/// UART1 Data Terminal Ready
pub const UART1_DTR: u8 = 153;

/// UART1 Request To Send
pub const UART1_RTS: u8 = 154;

/// UART1 User-designated Output 2
pub const UART1_OUT2: u8 = 155;

/// UART1 User-designated Output 1
pub const UART1_OUT1: u8 = 156;

/// UART1 Serial Infrared Output
pub const UART1_SIR_OUT: u8 = 157;

/// UART1 Transmit Clock Output
pub const UART1_BAUD: u8 = 158;

/// UART1 Receiver Output Enable
pub const UART1_RE: u8 = 159;

/// UART1 Driver Output Enable
pub const UART1_DE: u8 = 160;

/// UART1 RS485 Enable
pub const UART1_RS485_EN: u8 = 161;

/// UART2 Clear To Send
pub const UART2_CTS: u8 = 162;

/// UART2 Data Set Ready
pub const UART2_DSR: u8 = 163;

/// UART2 Data Carrier Detect
pub const UART2_DCD: u8 = 164;

/// UART2 Ring Indicator
pub const UART2_RI: u8 = 165;

/// UART2 Serial Infrared Input
pub const UART2_SIR_IN: u8 = 166;

/// UART2 Data Terminal Ready
pub const UART2_DTR: u8 = 167;

/// UART2 Request To Send
pub const UART2_RTS: u8 = 168;

/// UART2 User-designated Output 2
pub const UART2_OUT2: u8 = 169;

/// UART2 User-designated Output 1
pub const UART2_OUT1: u8 = 170;

/// UART2 Serial Infrared Output
pub const UART2_SIR_OUT: u8 = 171;

/// UART2 Transmit Clock Output
pub const UART2_BAUD: u8 = 172;

/// UART2 Receiver Output Enable
pub const UART2_RE: u8 = 173;

/// UART2 Driver Output Enable
pub const UART2_DE: u8 = 174;

/// UART2 RS485 Enable
pub const UART2_RS485_EN: u8 = 175;

/// UART3 Clear To Send
pub const UART3_CTS: u8 = 176;

/// UART3 Data Set Ready
pub const UART3_DSR: u8 = 177;

/// UART3 Data Carrier Detect
pub const UART3_DCD: u8 = 178;

/// UART3 Ring Indicator
pub const UART3_RI: u8 = 179;

/// UART3 Serial Infrared Input
pub const UART3_SIR_IN: u8 = 180;

/// UART3 Data Terminal Ready
pub const UART3_DTR: u8 = 181;

/// UART3 Request To Send
pub const UART3_RTS: u8 = 182;

/// UART3 User-designated Output 2
pub const UART3_OUT2: u8 = 183;

/// UART3 User-designated Output 1
pub const UART3_OUT1: u8 = 184;

/// UART3 Serial Infrared Output
pub const UART3_SIR_OUT: u8 = 185;

/// UART3 Transmit Clock Output
pub const UART3_BAUD: u8 = 186;

/// UART3 Receiver Output Enable
pub const UART3_RE: u8 = 187;

/// UART3 Driver Output Enable
pub const UART3_DE: u8 = 188;

/// UART3 RS485 Enable
pub const UART3_RS485_EN: u8 = 189;

/// TIMER0 Toggle Output 1
pub const TIMER0_TOGGLE1: u8 = 190;

/// TIMER0 Toggle Output 2
pub const TIMER0_TOGGLE2: u8 = 191;

/// TIMER0 Toggle Output 3
pub const TIMER0_TOGGLE3: u8 = 192;

/// TIMER0 Toggle Output 4
pub const TIMER0_TOGGLE4: u8 = 193;

/// TIMER1 Toggle Output 1
pub const TIMER1_TOGGLE1: u8 = 194;

/// TIMER1 Toggle Output 2
pub const TIMER1_TOGGLE2: u8 = 195;

/// TIMER1 Toggle Output 3
pub const TIMER1_TOGGLE3: u8 = 196;

/// TIMER1 Toggle Output 4
pub const TIMER1_TOGGLE4: u8 = 197;

/// TIMER2 Toggle Output 1
pub const TIMER2_TOGGLE1: u8 = 198;

/// TIMER2 Toggle Output 2
pub const TIMER2_TOGGLE2: u8 = 199;

/// TIMER2 Toggle Output 3
pub const TIMER2_TOGGLE3: u8 = 200;

/// TIMER2 Toggle Output 4
pub const TIMER2_TOGGLE4: u8 = 201;

/// Clock SPI2
pub const CLK_SPI2: u8 = 202;

/// Clock I2C2
pub const CLK_I2C2: u8 = 203;

/// Internal function signal 0
pub const INTERNAL0: u8 = 204;

/// Internal function signal 1
pub const INTERNAL1: u8 = 205;

/// Internal function signal 2
pub const INTERNAL2: u8 = 206;

/// Internal function signal 3
pub const INTERNAL3: u8 = 207;

/// Internal function signal 4
pub const INTERNAL4: u8 = 208;

/// Internal function signal 5
pub const INTERNAL5: u8 = 209;

/// Internal function signal 6
pub const INTERNAL6: u8 = 210;

/// Internal function signal 7
pub const INTERNAL7: u8 = 211;

/// Internal function signal 8
pub const INTERNAL8: u8 = 212;

/// Internal function signal 9
pub const INTERNAL9: u8 = 213;

/// Internal function signal 10
pub const INTERNAL10: u8 = 214;

/// Internal function signal 11
pub const INTERNAL11: u8 = 215;

/// Internal function signal 12
pub const INTERNAL12: u8 = 216;

/// Internal function signal 13
pub const INTERNAL13: u8 = 217;

/// Internal function signal 14
pub const INTERNAL14: u8 = 218;

/// Internal function signal 15
pub const INTERNAL15: u8 = 219;

/// Internal function signal 16
pub const INTERNAL16: u8 = 220;

/// Internal function signal 17
pub const INTERNAL17: u8 = 221;

/// Constant function
pub const CONSTANT: u8 = 222;

/// Internal function signal 18
pub const INTERNAL18: u8 = 223;

/// Debug function 0
pub const DEBUG0: u8 = 224;

/// Debug function 1
pub const DEBUG1: u8 = 225;

/// Debug function 2
pub const DEBUG2: u8 = 226;

/// Debug function 3
pub const DEBUG3: u8 = 227;

/// Debug function 4
pub const DEBUG4: u8 = 228;

/// Debug function 5
pub const DEBUG5: u8 = 229;

/// Debug function 6
pub const DEBUG6: u8 = 230;

/// Debug function 7
pub const DEBUG7: u8 = 231;

/// Debug function 8
pub const DEBUG8: u8 = 232;

/// Debug function 9
pub const DEBUG9: u8 = 233;

/// Debug function 10
pub const DEBUG10: u8 = 234;

/// Debug function 11
pub const DEBUG11: u8 = 235;

/// Debug function 12
pub const DEBUG12: u8 = 236;

/// Debug function 13
pub const DEBUG13: u8 = 237;

/// Debug function 14
pub const DEBUG14: u8 = 238;

/// Debug function 15
pub const DEBUG15: u8 = 239;

/// Debug function 16
pub const DEBUG16: u8 = 240;

/// Debug function 17
pub const DEBUG17: u8 = 241;

/// Debug function 18
pub const DEBUG18: u8 = 242;

/// Debug function 19
pub const DEBUG19: u8 = 243;

/// Debug function 20
pub const DEBUG20: u8 = 244;

/// Debug function 21
pub const DEBUG21: u8 = 245;

/// Debug function 22
pub const DEBUG22: u8 = 246;

/// Debug function 23
pub const DEBUG23: u8 = 247;

/// Debug function 24
pub const DEBUG24: u8 = 248;

/// Debug function 25
pub const DEBUG25: u8 = 249;

/// Debug function 26
pub const DEBUG26: u8 = 250;

/// Debug function 27
pub const DEBUG27: u8 = 251;

/// Debug function 28
pub const DEBUG28: u8 = 252;

/// Debug function 29
pub const DEBUG29: u8 = 253;

/// Debug function 30
pub const DEBUG30: u8 = 254;

/// Debug function 31
pub const DEBUG31: u8 = 255;

} // verus!
